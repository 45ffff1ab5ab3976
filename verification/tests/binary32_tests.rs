use tracer::binary32::{decode_halves, encode_halves, MAX_HALVES};

fn bits_of_halves(halves: i32) -> u32 {
    (halves as f32 / 2.0).to_bits()
}

#[test]
fn zero_is_the_all_zero_pattern() {
    assert_eq!(encode_halves(0), Some(0));
    assert_eq!(encode_halves(0), Some(0.0f32.to_bits()));
}

#[test]
fn one_half_unit_is_one_half() {
    assert_eq!(encode_halves(1), Some(0x3F00_0000));
    assert_eq!(encode_halves(1), Some(0.5f32.to_bits()));
}

#[test]
fn whole_numbers_have_their_patterns() {
    assert_eq!(encode_halves(2), Some(1.0f32.to_bits()));
    assert_eq!(encode_halves(4), Some(2.0f32.to_bits()));
    assert_eq!(encode_halves(-2), Some(0xBF80_0000));
    assert_eq!(encode_halves(-2), Some((-1.0f32).to_bits()));
    assert_eq!(encode_halves(-5), Some((-2.5f32).to_bits()));
    assert_eq!(encode_halves(-29), Some((-14.5f32).to_bits()));
}

#[test]
fn encoding_agrees_with_the_machine_on_a_range() {
    let mut halves: i32 = -70_000;
    while halves <= 70_000 {
        assert_eq!(encode_halves(halves), Some(bits_of_halves(halves)), "halves = {}", halves);
        halves += 1;
    }
}

#[test]
fn encoding_agrees_with_the_machine_on_powers_of_two() {
    let mut power: i32 = 1;
    while power <= MAX_HALVES {
        for halves in [power - 1, power, power + 1, -power, 1 - power, -power - 1] {
            if halves.abs() <= MAX_HALVES {
                assert_eq!(encode_halves(halves), Some(bits_of_halves(halves)));
            }
        }
        power *= 2;
    }
}

#[test]
fn the_range_ends_at_max_halves() {
    assert_eq!(MAX_HALVES, 16_777_215);
    assert_eq!(encode_halves(MAX_HALVES), Some(8_388_607.5f32.to_bits()));
    assert_eq!(encode_halves(-MAX_HALVES), Some((-8_388_607.5f32).to_bits()));
    assert_eq!(encode_halves(MAX_HALVES + 1), None);
    assert_eq!(encode_halves(-MAX_HALVES - 1), None);
    assert_eq!(encode_halves(i32::MAX), None);
    assert_eq!(encode_halves(i32::MIN), None);
}

#[test]
fn decoding_reads_known_patterns() {
    assert_eq!(decode_halves(0.0f32.to_bits()), Some(0));
    assert_eq!(decode_halves(0.5f32.to_bits()), Some(1));
    assert_eq!(decode_halves(1.0f32.to_bits()), Some(2));
    assert_eq!(decode_halves((-1.0f32).to_bits()), Some(-2));
    assert_eq!(decode_halves((-14.5f32).to_bits()), Some(-29));
    assert_eq!(decode_halves(8_388_607.5f32.to_bits()), Some(MAX_HALVES));
}

#[test]
fn negative_zero_reads_as_zero() {
    assert_eq!(decode_halves((-0.0f32).to_bits()), Some(0));
    assert_eq!(decode_halves(0x8000_0000), Some(0));
}

#[test]
fn patterns_that_are_no_whole_half_units_are_refused() {
    assert_eq!(decode_halves(0.25f32.to_bits()), None);
    assert_eq!(decode_halves(0.75f32.to_bits()), None);
    assert_eq!(decode_halves(1.25f32.to_bits()), None);
    assert_eq!(decode_halves(f32::MIN_POSITIVE.to_bits()), None);
    assert_eq!(decode_halves(1.0e-30f32.to_bits()), None);
}

#[test]
fn patterns_out_of_range_are_refused() {
    assert_eq!(decode_halves(8_388_608.0f32.to_bits()), None);
    assert_eq!(decode_halves((-8_388_608.0f32).to_bits()), None);
    assert_eq!(decode_halves(1.0e30f32.to_bits()), None);
    assert_eq!(decode_halves(f32::MAX.to_bits()), None);
}

#[test]
fn special_patterns_are_refused() {
    assert_eq!(decode_halves(f32::INFINITY.to_bits()), None);
    assert_eq!(decode_halves(f32::NEG_INFINITY.to_bits()), None);
    assert_eq!(decode_halves(f32::NAN.to_bits()), None);
    assert_eq!(decode_halves(1), None);
    assert_eq!(decode_halves(0x007F_FFFF), None);
    assert_eq!(decode_halves(0x8000_0001), None);
}

#[test]
fn decoding_agrees_with_the_machine_on_a_range() {
    let mut halves: i32 = -70_000;
    while halves <= 70_000 {
        assert_eq!(decode_halves(bits_of_halves(halves)), Some(halves));
        halves += 1;
    }
}

#[test]
fn decoding_gives_back_what_was_encoded() {
    let mut halves: i32 = -MAX_HALVES;
    while halves <= MAX_HALVES {
        let bits = encode_halves(halves).unwrap();
        assert_eq!(decode_halves(bits), Some(halves));
        halves += 4_099;
    }
}

#[test]
fn decoded_patterns_mean_the_same_number_to_the_machine() {
    let mut bits: u32 = 0;
    loop {
        if let Some(halves) = decode_halves(bits) {
            assert_eq!(f32::from_bits(bits), halves as f32 / 2.0);
        } else {
            let value = f32::from_bits(bits);
            let doubled = value * 2.0;
            let whole = doubled.is_finite() && doubled == doubled.trunc()
                && doubled.abs() <= MAX_HALVES as f32
                && (value == 0.0 || value.is_normal());
            assert!(!whole, "bits = {:#x}", bits);
        }
        match bits.checked_add(0x0000_F123) {
            Some(next) => bits = next,
            None => break,
        }
    }
}
