use tracer::camera::{Camera, CAMERA_WORDS};

#[test]
fn default_camera_sits_at_the_origin() {
    let camera = Camera::default_camera();
    assert_eq!(camera, Camera { vp_height: 4, focal_length: 2, position: [0, 0, 0] });
    assert_eq!(camera.vp_height as f32 / 2.0, 2.0);
    assert_eq!(camera.focal_length as f32 / 2.0, 1.0);
}

#[test]
fn image_of_the_default_camera() {
    let words = Camera::default_camera().to_words().unwrap();
    assert_eq!(CAMERA_WORDS, 5);
    assert_eq!(words, vec![2.0f32.to_bits(), 1.0f32.to_bits(), 0, 0, 0]);
    assert_eq!(words, vec![0x4000_0000, 0x3F80_0000, 0, 0, 0]);
}

#[test]
fn reading_back_the_image_gives_the_camera() {
    let camera = Camera { vp_height: 9, focal_length: -3, position: [1, -16_777_215, 40] };
    let words = camera.to_words().unwrap();
    assert_eq!(
        words,
        vec![
            4.5f32.to_bits(),
            (-1.5f32).to_bits(),
            0.5f32.to_bits(),
            (-8_388_607.5f32).to_bits(),
            20.0f32.to_bits()
        ]
    );
    assert_eq!(Camera::from_words(&words), Some(camera));
}

#[test]
fn a_camera_out_of_range_has_no_image() {
    let camera = Camera { vp_height: 16_777_216, focal_length: 2, position: [0, 0, 0] };
    assert_eq!(camera.to_words(), None);
    let camera = Camera { vp_height: 4, focal_length: 2, position: [0, 0, -16_777_216] };
    assert_eq!(camera.to_words(), None);
}

#[test]
fn words_that_are_no_camera_are_refused() {
    assert_eq!(Camera::from_words(&vec![]), None);
    assert_eq!(Camera::from_words(&vec![0, 0, 0, 0]), None);
    assert_eq!(Camera::from_words(&vec![0, 0, 0, 0, 0, 0]), None);
    assert_eq!(Camera::from_words(&vec![0, 0, f32::INFINITY.to_bits(), 0, 0]), None);
    assert_eq!(Camera::from_words(&vec![0, 0, 0, 0, 0.25f32.to_bits()]), None);
    assert_eq!(
        Camera::from_words(&vec![0, 0, 0, 0, 0]),
        Some(Camera { vp_height: 0, focal_length: 0, position: [0, 0, 0] })
    );
}
