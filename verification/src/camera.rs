//! The camera that the kernel casts its rays from.
//!
//! Lengths are whole numbers of half units, as in the scene. In device memory a camera is
//! five single-precision patterns: the viewport's height, the focal length, and the three
//! coordinates of the eye.
use crate::binary32::{
    decode_halves, encode_halves, lemma_word_round_trip, pattern_of, representable, value_of,
};
use vstd::prelude::*;

verus! {

/// Words that a camera takes in device memory.
pub const CAMERA_WORDS: usize = 5;

/// The eye and the projection plane, in half units.
#[derive(Clone, Copy, Debug, PartialEq, Eq)]
pub struct Camera {
    pub vp_height: i32,
    pub focal_length: i32,
    pub position: [i32; 3],
}

impl Camera {
    /// Whether all five numbers of the camera have an exact pattern.
    pub open spec fn encodable(self) -> bool {
        &&& representable(self.vp_height as int)
        &&& representable(self.focal_length as int)
        &&& representable(self.position[0] as int)
        &&& representable(self.position[1] as int)
        &&& representable(self.position[2] as int)
    }

    /// The camera's image in device memory.
    pub open spec fn words(self) -> Seq<u32> {
        seq![
            pattern_of(self.vp_height as int),
            pattern_of(self.focal_length as int),
            pattern_of(self.position[0] as int),
            pattern_of(self.position[1] as int),
            pattern_of(self.position[2] as int),
        ]
    }

    /// The default camera: at the origin, with a viewport 2 units high at a focal
    /// length of 1.
    pub open spec fn default_of() -> Camera {
        Camera { vp_height: 4, focal_length: 2, position: [0, 0, 0] }
    }

    /// The default camera.
    pub fn default_camera() -> (camera: Camera)
        ensures
            camera == Camera::default_of(),
            camera.encodable(),
    {
        let camera = Camera { vp_height: 4, focal_length: 2, position: [0, 0, 0] };
        proof {
            assert(camera.position =~= Camera::default_of().position);
        }
        camera
    }

    /// The camera's image in device memory, or `None` where one of its numbers has no
    /// exact pattern.
    pub fn to_words(&self) -> (image: Option<Vec<u32>>)
        ensures
            image is Some <==> self.encodable(),
            image matches Some(words) ==> words@ == self.words(),
    {
        let height = encode_halves(self.vp_height);
        let focal = encode_halves(self.focal_length);
        let x = encode_halves(self.position[0]);
        let y = encode_halves(self.position[1]);
        let z = encode_halves(self.position[2]);
        match (height, focal, x, y, z) {
            (Some(height), Some(focal), Some(x), Some(y), Some(z)) => {
                let mut words: Vec<u32> = Vec::new();
                words.push(height);
                words.push(focal);
                words.push(x);
                words.push(y);
                words.push(z);
                proof {
                    assert(words@ =~= self.words());
                }
                Some(words)
            },
            _ => None,
        }
    }

    /// The camera whose image `words` is, or `None` where `words` is not the image of a
    /// camera.
    pub fn from_words(words: &Vec<u32>) -> (read: Option<Camera>)
        ensures
            read == parse_camera(words@),
    {
        if words.len() != CAMERA_WORDS {
            return None;
        }
        let height = decode_halves(words[0]);
        let focal = decode_halves(words[1]);
        let x = decode_halves(words[2]);
        let y = decode_halves(words[3]);
        let z = decode_halves(words[4]);
        match (height, focal, x, y, z) {
            (Some(height), Some(focal), Some(x), Some(y), Some(z)) => {
                let camera = Camera { vp_height: height, focal_length: focal, position: [x, y, z] };
                proof {
                    assert(camera.position =~= camera_in(words@).position);
                }
                Some(camera)
            },
            _ => None,
        }
    }
}

/// Whether `words` is the image of some camera.
pub open spec fn is_camera_image(words: Seq<u32>) -> bool {
    &&& words.len() == CAMERA_WORDS
    &&& value_of(words[0]) is Some
    &&& value_of(words[1]) is Some
    &&& value_of(words[2]) is Some
    &&& value_of(words[3]) is Some
    &&& value_of(words[4]) is Some
}

/// The camera that `words` is the image of.
pub open spec fn camera_in(words: Seq<u32>) -> Camera {
    Camera {
        vp_height: value_of(words[0])->0,
        focal_length: value_of(words[1])->0,
        position: [value_of(words[2])->0, value_of(words[3])->0, value_of(words[4])->0],
    }
}

/// What reading `words` back gives: the camera, where `words` is the image of one.
pub open spec fn parse_camera(words: Seq<u32>) -> Option<Camera> {
    if is_camera_image(words) {
        Some(camera_in(words))
    } else {
        None
    }
}

/// Writing a camera to memory and reading the words back gives the camera again.
pub proof fn lemma_camera_round_trip(camera: Camera)
    requires
        camera.encodable(),
    ensures
        parse_camera(camera.words()) == Some(camera),
{
    lemma_word_round_trip(camera.vp_height);
    lemma_word_round_trip(camera.focal_length);
    lemma_word_round_trip(camera.position[0]);
    lemma_word_round_trip(camera.position[1]);
    lemma_word_round_trip(camera.position[2]);
    assert(camera_in(camera.words()).position =~= camera.position);
}

} // verus!
