use tracer::scene::{SceneData, Sphere, DIMENSION_WORDS, MAX_SPHERES, NUM_SPHERES, SPHERE_WORDS};

fn float_of(halves: i32) -> f32 {
    halves as f32 / 2.0
}

#[test]
fn the_kernel_expects_ten_spheres() {
    assert_eq!(NUM_SPHERES, 10);
    assert_eq!(SPHERE_WORDS, 4);
    assert_eq!(DIMENSION_WORDS, 2);
}

#[test]
fn first_sphere_stands_at_the_default_place() {
    let scene = SceneData::default_scene(640, 480);
    assert_eq!(scene.spheres[0], Sphere { center: [0, 0, -2], radius: 1 });
    let centre: Vec<f32> = scene.spheres[0].center.iter().map(|c| float_of(*c)).collect();
    assert_eq!(centre, vec![0.0, 0.0, -1.0]);
    assert_eq!(float_of(scene.spheres[0].radius), 0.5);
}

#[test]
fn later_spheres_lie_deeper_by_one_and_a_half_each() {
    let scene = SceneData::default_scene(640, 480);
    assert_eq!(scene.spheres.len(), NUM_SPHERES);
    for i in 1..NUM_SPHERES {
        assert_eq!(float_of(scene.spheres[i].center[2]), -1.0 - i as f32 * 1.5);
        assert_eq!(scene.spheres[i].center[0], 0);
        assert_eq!(scene.spheres[i].center[1], 0);
        assert_eq!(float_of(scene.spheres[i].radius), 0.5);
    }
    assert_eq!(scene.spheres[9].center[2], -29);
}

#[test]
fn default_scene_keeps_the_dimensions() {
    let scene = SceneData::default_scene(1920, 1080);
    assert_eq!(scene.width, 1920);
    assert_eq!(scene.height, 1080);
}

#[test]
fn a_scene_without_spheres_is_valid() {
    let scene = SceneData::new(0, 8, 6).unwrap();
    assert!(scene.spheres.is_empty());
    assert_eq!(scene.to_words(), Some(vec![8, 6]));
    assert_eq!(SceneData::from_words(&vec![8, 6]), Some(scene));
}

#[test]
fn a_scene_of_one_sphere() {
    let scene = SceneData::new(1, 3, 2).unwrap();
    assert_eq!(scene.spheres, vec![Sphere { center: [0, 0, -2], radius: 1 }]);
    assert_eq!(
        scene.to_words(),
        Some(vec![0, 0, (-1.0f32).to_bits(), 0.5f32.to_bits(), 3, 2])
    );
}

#[test]
fn sphere_count_is_limited_by_the_depth() {
    assert_eq!(MAX_SPHERES, 5_592_405);
    assert!(SceneData::new(MAX_SPHERES + 1, 1, 1).is_none());
    assert!(SceneData::new(usize::MAX, 1, 1).is_none());
    let scene = SceneData::new(MAX_SPHERES, 1, 1).unwrap();
    assert_eq!(scene.spheres.len(), MAX_SPHERES);
    assert_eq!(scene.spheres[MAX_SPHERES - 1].center[2], -16_777_214);
    assert!(scene.to_words().is_some());
}

#[test]
fn image_of_the_default_scene() {
    let scene = SceneData::default_scene(640, 480);
    let words = scene.to_words().unwrap();
    assert_eq!(words.len(), 42);
    for i in 0..NUM_SPHERES {
        assert_eq!(f32::from_bits(words[4 * i]), 0.0);
        assert_eq!(f32::from_bits(words[4 * i + 1]), 0.0);
        assert_eq!(f32::from_bits(words[4 * i + 2]), -1.0 - i as f32 * 1.5);
        assert_eq!(f32::from_bits(words[4 * i + 3]), 0.5);
    }
    assert_eq!(words[40], 640);
    assert_eq!(words[41], 480);
}

#[test]
fn image_has_the_layout_of_the_kernels_struct() {
    let scene = SceneData::default_scene(7, 5);
    let words = scene.to_words().unwrap();
    let mut bytes: Vec<u8> = Vec::new();
    for sphere in &scene.spheres {
        for c in sphere.center.iter() {
            bytes.extend_from_slice(&float_of(*c).to_ne_bytes());
        }
        bytes.extend_from_slice(&float_of(sphere.radius).to_ne_bytes());
    }
    bytes.extend_from_slice(&7u32.to_ne_bytes());
    bytes.extend_from_slice(&5u32.to_ne_bytes());
    let image: Vec<u8> = words.iter().flat_map(|w| w.to_ne_bytes()).collect();
    assert_eq!(image, bytes);
}

#[test]
fn reading_back_the_image_gives_the_scene() {
    let scene = SceneData::default_scene(640, 480);
    let words = scene.to_words().unwrap();
    assert_eq!(SceneData::from_words(&words), Some(scene.clone()));
    let again = SceneData::from_words(&words).unwrap().to_words().unwrap();
    assert_eq!(again, words);
}

#[test]
fn reading_back_any_encodable_scene_gives_it() {
    let scene = SceneData {
        spheres: vec![
            Sphere { center: [3, -7, 16_777_215], radius: 12 },
            Sphere { center: [-16_777_215, 0, 1], radius: 0 },
        ],
        width: u32::MAX,
        height: 0,
    };
    let words = scene.to_words().unwrap();
    assert_eq!(words.len(), 10);
    assert_eq!(SceneData::from_words(&words), Some(scene));
}

#[test]
fn a_sphere_out_of_range_has_no_image() {
    let scene = SceneData {
        spheres: vec![Sphere { center: [0, 0, 16_777_216], radius: 1 }],
        width: 1,
        height: 1,
    };
    assert_eq!(scene.to_words(), None);
    let scene = SceneData {
        spheres: vec![
            Sphere { center: [0, 0, 0], radius: 1 },
            Sphere { center: [0, 0, 0], radius: i32::MIN },
        ],
        width: 1,
        height: 1,
    };
    assert_eq!(scene.to_words(), None);
}

#[test]
fn words_of_a_wrong_length_are_no_image() {
    assert_eq!(SceneData::from_words(&vec![]), None);
    assert_eq!(SceneData::from_words(&vec![1]), None);
    assert_eq!(SceneData::from_words(&vec![0, 0, 0]), None);
    assert_eq!(SceneData::from_words(&vec![0, 0, 0, 0, 0]), None);
    assert_eq!(SceneData::from_words(&vec![0, 0, 0, 0, 0, 0, 0]), None);
}

#[test]
fn words_that_are_no_numbers_are_no_image() {
    let nan = f32::NAN.to_bits();
    let quarter = 0.25f32.to_bits();
    assert_eq!(SceneData::from_words(&vec![0, 0, 0, nan, 1, 1]), None);
    assert_eq!(SceneData::from_words(&vec![quarter, 0, 0, 0, 1, 1]), None);
    assert_eq!(SceneData::from_words(&vec![0, 0, 0, 0, 0, 1.0e30f32.to_bits(), 0, 0, 1, 1]), None);
    assert_eq!(
        SceneData::from_words(&vec![0, 0, 0, 0, nan, quarter]),
        Some(SceneData {
            spheres: vec![Sphere { center: [0, 0, 0], radius: 0 }],
            width: nan,
            height: quarter
        })
    );
}
