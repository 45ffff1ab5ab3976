//! The scene that the kernel traces: a row of spheres and the raster's dimensions.
//!
//! Lengths are whole numbers of half units (1 stands for 0.5), so that every coordinate
//! has an exact single-precision pattern. In device memory a scene is a sequence of 32-bit
//! words: four per sphere (the three centre coordinates, then the radius, as
//! single-precision patterns), followed by the width and the height as plain integers.
use crate::binary32::{
    decode_halves, encode_halves, lemma_word_round_trip, pattern_of, representable, value_of,
};
use vstd::prelude::*;

verus! {

/// The number of spheres that the kernel expects.
pub const NUM_SPHERES: usize = 10;

/// The largest number of spheres whose depths all have an exact pattern.
pub const MAX_SPHERES: usize = 5_592_405;

/// Words that one sphere takes in device memory.
pub const SPHERE_WORDS: usize = 4;

/// Words that follow the spheres: the width and the height.
pub const DIMENSION_WORDS: usize = 2;

/// A sphere, in half units.
#[derive(Clone, Copy, Debug, PartialEq, Eq)]
pub struct Sphere {
    pub center: [i32; 3],
    pub radius: i32,
}

/// The spheres and the dimensions of the raster they are drawn on.
#[derive(Clone, Debug, PartialEq, Eq)]
pub struct SceneData {
    pub spheres: Vec<Sphere>,
    pub width: u32,
    pub height: u32,
}

/// A scene as a mathematical value.
pub struct SceneModel {
    pub spheres: Seq<Sphere>,
    pub width: u32,
    pub height: u32,
}

impl View for SceneData {
    type V = SceneModel;

    open spec fn view(&self) -> SceneModel {
        SceneModel { spheres: self.spheres@, width: self.width, height: self.height }
    }
}

/// The depth of the sphere at `index`, in half units: each sphere lies 1.5 units behind
/// the one before it, the first at a depth of 1.
pub open spec fn depth_halves(index: int) -> int {
    -2 - 3 * index
}

/// The sphere that the default scene has at `index`: on the camera's axis, at
/// `depth_halves(index)`, with a radius of 0.5.
pub open spec fn default_sphere(index: int) -> Sphere {
    Sphere { center: [0, 0, depth_halves(index) as i32], radius: 1 }
}

/// The first `count` spheres of the default scene.
pub open spec fn default_row(count: nat) -> Seq<Sphere> {
    Seq::new(count, |index: int| default_sphere(index))
}

/// Where the spheres of the default scene stand: the first at `[0, 0, -1]`, each later
/// one 1.5 deeper than the one before, all with a radius of 0.5 and all with exact
/// patterns.
pub proof fn lemma_default_placement(index: int)
    requires
        0 <= index < MAX_SPHERES,
    ensures
        default_sphere(index).center[0] == 0,
        default_sphere(index).center[1] == 0,
        default_sphere(index).center[2] == -2 - 3 * index,
        default_sphere(index).radius == 1,
        default_sphere(index).encodable(),
        index == 0 ==> default_sphere(index) == (Sphere { center: [0i32, 0i32, -2i32], radius: 1 }),
{
    if index == 0 {
        assert(default_sphere(index).center =~= [0i32, 0i32, -2i32]);
    }
}

impl Sphere {
    /// Whether all four numbers of the sphere have an exact pattern.
    pub open spec fn encodable(self) -> bool {
        &&& representable(self.center[0] as int)
        &&& representable(self.center[1] as int)
        &&& representable(self.center[2] as int)
        &&& representable(self.radius as int)
    }

    /// The number of the sphere that stands at `slot` of its four words.
    pub open spec fn component(self, slot: int) -> int {
        if slot == 3 {
            self.radius as int
        } else {
            self.center[slot] as int
        }
    }
}

impl SceneModel {
    /// The default scene with `count` spheres, for a raster of `width` by `height`.
    pub open spec fn default_of(count: nat, width: u32, height: u32) -> SceneModel {
        SceneModel { spheres: default_row(count), width, height }
    }

    /// Whether every sphere of the scene has exact patterns.
    pub open spec fn encodable(self) -> bool {
        forall|i: int| 0 <= i < self.spheres.len() ==> (#[trigger] self.spheres[i]).encodable()
    }

    /// The number of words that the scene takes in device memory.
    pub open spec fn word_count(self) -> int {
        SPHERE_WORDS * self.spheres.len() + DIMENSION_WORDS
    }

    /// The word at `index` of the scene's image in device memory.
    pub open spec fn word_at(self, index: int) -> u32 {
        if index < SPHERE_WORDS * self.spheres.len() {
            pattern_of(self.spheres[index / 4].component(index % 4))
        } else if index == SPHERE_WORDS * self.spheres.len() {
            self.width
        } else {
            self.height
        }
    }

    /// The scene's image in device memory.
    pub open spec fn words(self) -> Seq<u32> {
        Seq::new(self.word_count() as nat, |index: int| self.word_at(index))
    }
}

/// Whether the four words from `start` on are the image of a sphere.
pub open spec fn holds_sphere(words: Seq<u32>, start: int) -> bool {
    &&& value_of(words[start]) is Some
    &&& value_of(words[start + 1]) is Some
    &&& value_of(words[start + 2]) is Some
    &&& value_of(words[start + 3]) is Some
}

/// The sphere whose image the four words from `start` on are.
pub open spec fn sphere_in(words: Seq<u32>, start: int) -> Sphere {
    Sphere {
        center: [
            value_of(words[start])->0,
            value_of(words[start + 1])->0,
            value_of(words[start + 2])->0,
        ],
        radius: value_of(words[start + 3])->0,
    }
}

/// Whether `words` is the image of some scene: whole spheres, then the two dimensions.
pub open spec fn is_scene_image(words: Seq<u32>) -> bool {
    &&& words.len() >= DIMENSION_WORDS
    &&& (words.len() - DIMENSION_WORDS) % 4 == 0
    &&& forall|i: int|
        0 <= i < (words.len() - DIMENSION_WORDS) / 4 ==> #[trigger] holds_sphere(words, 4 * i)
}

/// The scene that `words` is the image of.
pub open spec fn scene_in(words: Seq<u32>) -> SceneModel {
    let count = (words.len() - DIMENSION_WORDS) / 4;
    SceneModel {
        spheres: Seq::new(count as nat, |i: int| sphere_in(words, 4 * i)),
        width: words[4 * count],
        height: words[4 * count + 1],
    }
}

/// What reading `words` back gives: the scene, where `words` is the image of one.
pub open spec fn parse_scene(words: Seq<u32>) -> Option<SceneModel> {
    if is_scene_image(words) {
        Some(scene_in(words))
    } else {
        None
    }
}

/// In a scene's image the four words of each sphere are read back as that sphere.
pub proof fn lemma_sphere_round_trip(scene: SceneModel, i: int)
    requires
        scene.encodable(),
        0 <= i < scene.spheres.len(),
    ensures
        holds_sphere(scene.words(), 4 * i),
        sphere_in(scene.words(), 4 * i) == scene.spheres[i],
{
    let words = scene.words();
    let sphere = scene.spheres[i];
    assert(sphere.encodable());
    assert(words[4 * i] == pattern_of(sphere.center[0] as int)) by {
        assert((4 * i) / 4 == i && (4 * i) % 4 == 0);
    }
    assert(words[4 * i + 1] == pattern_of(sphere.center[1] as int)) by {
        assert((4 * i + 1) / 4 == i && (4 * i + 1) % 4 == 1);
    }
    assert(words[4 * i + 2] == pattern_of(sphere.center[2] as int)) by {
        assert((4 * i + 2) / 4 == i && (4 * i + 2) % 4 == 2);
    }
    assert(words[4 * i + 3] == pattern_of(sphere.radius as int)) by {
        assert((4 * i + 3) / 4 == i && (4 * i + 3) % 4 == 3);
    }
    lemma_word_round_trip(sphere.center[0]);
    lemma_word_round_trip(sphere.center[1]);
    lemma_word_round_trip(sphere.center[2]);
    lemma_word_round_trip(sphere.radius);
    assert(sphere_in(words, 4 * i).center =~= sphere.center);
}

/// Writing a scene to memory and reading the words back gives the scene again.
pub proof fn lemma_scene_round_trip(scene: SceneModel)
    requires
        scene.encodable(),
    ensures
        parse_scene(scene.words()) == Some(scene),
{
    let words = scene.words();
    let count = scene.spheres.len() as int;
    assert((words.len() - DIMENSION_WORDS) / 4 == count);
    assert forall|i: int| 0 <= i < count implies #[trigger] holds_sphere(words, 4 * i) by {
        lemma_sphere_round_trip(scene, i);
    }
    assert forall|i: int| 0 <= i < count implies #[trigger] scene_in(words).spheres[i]
        == scene.spheres[i] by {
        lemma_sphere_round_trip(scene, i);
    }
    assert(scene_in(words).spheres =~= scene.spheres);
    assert(words[4 * count] == scene.width);
    assert(words[4 * count + 1] == scene.height);
}

impl SceneData {
    /// The default scene with `count` spheres, for a raster of `width` by `height`:
    /// `None` where `count` is above `MAX_SPHERES`.
    pub fn new(count: usize, width: u32, height: u32) -> (made: Option<SceneData>)
        ensures
            made is Some <==> count <= MAX_SPHERES,
            made matches Some(scene) ==> scene@ == SceneModel::default_of(
                count as nat,
                width,
                height,
            ) && scene@.encodable(),
    {
        if count > MAX_SPHERES {
            return None;
        }
        let mut spheres: Vec<Sphere> = Vec::new();
        let mut index: usize = 0;
        while index < count
            invariant
                index <= count <= MAX_SPHERES,
                spheres@ == default_row(index as nat),
            decreases count - index,
        {
            let depth: i32 = -2 - 3 * (index as i32);
            let sphere = Sphere { center: [0, 0, depth], radius: 1 };
            proof {
                assert(sphere.center =~= default_sphere(index as int).center);
            }
            spheres.push(sphere);
            index = index + 1;
            proof {
                assert(spheres@ =~= default_row(index as nat));
            }
        }
        let scene = SceneData { spheres, width, height };
        proof {
            assert forall|i: int| 0 <= i < scene@.spheres.len() implies (
            #[trigger] scene@.spheres[i]).encodable() by {
                lemma_default_placement(i);
            }
        }
        Some(scene)
    }

    /// The scene that the kernel is built for: `NUM_SPHERES` spheres.
    pub fn default_scene(width: u32, height: u32) -> (scene: SceneData)
        ensures
            scene@ == SceneModel::default_of(NUM_SPHERES as nat, width, height),
            scene@.encodable(),
    {
        SceneData::new(NUM_SPHERES, width, height).unwrap()
    }

    /// The scene's image in device memory, or `None` where a sphere has a number without
    /// an exact pattern, or the image would be longer than the machine can index.
    pub fn to_words(&self) -> (image: Option<Vec<u32>>)
        ensures
            image is Some <==> self@.encodable() && self@.word_count() <= usize::MAX,
            image matches Some(words) ==> words@ == self@.words(),
    {
        let count: usize = self.spheres.len();
        if count > (usize::MAX - DIMENSION_WORDS) / SPHERE_WORDS {
            return None;
        }
        let mut words: Vec<u32> = Vec::new();
        let mut index: usize = 0;
        while index < count
            invariant
                index <= count,
                count == self.spheres.len(),
                4 * count + 2 <= usize::MAX,
                words@.len() == 4 * index,
                forall|i: int| 0 <= i < index ==> (#[trigger] self@.spheres[i]).encodable(),
                forall|k: int| 0 <= k < 4 * index ==> #[trigger] words@[k] == self@.word_at(k),
            decreases count - index,
        {
            let sphere: Sphere = self.spheres[index];
            let x = encode_halves(sphere.center[0]);
            let y = encode_halves(sphere.center[1]);
            let z = encode_halves(sphere.center[2]);
            let r = encode_halves(sphere.radius);
            match (x, y, z, r) {
                (Some(x), Some(y), Some(z), Some(r)) => {
                    let ghost before = words@;
                    words.push(x);
                    words.push(y);
                    words.push(z);
                    words.push(r);
                    proof {
                        assert forall|k: int| 0 <= k < 4 * (index + 1) implies #[trigger] words@[k]
                            == self@.word_at(k) by {
                            if k < 4 * index {
                                assert(words@[k] == before[k]);
                            } else {
                                assert(k / 4 == index && k % 4 == k - 4 * index);
                            }
                        }
                    }
                },
                _ => {
                    proof {
                        assert(!self@.spheres[index as int].encodable());
                    }
                    return None;
                },
            }
            index = index + 1;
        }
        words.push(self.width);
        words.push(self.height);
        proof {
            assert(words@ =~= self@.words());
        }
        Some(words)
    }

    /// The scene whose image `words` is, or `None` where `words` is not the image of a
    /// scene.
    pub fn from_words(words: &Vec<u32>) -> (read: Option<SceneData>)
        ensures
            read is Some <==> is_scene_image(words@),
            read matches Some(scene) ==> Some(scene@) == parse_scene(words@),
    {
        let len: usize = words.len();
        if len < DIMENSION_WORDS || (len - DIMENSION_WORDS) % SPHERE_WORDS != 0 {
            return None;
        }
        let count: usize = (len - DIMENSION_WORDS) / SPHERE_WORDS;
        let mut spheres: Vec<Sphere> = Vec::new();
        let mut index: usize = 0;
        while index < count
            invariant
                index <= count,
                len == words@.len(),
                len >= DIMENSION_WORDS,
                (len - DIMENSION_WORDS) % 4 == 0,
                count == (len - DIMENSION_WORDS) / 4,
                spheres@.len() == index,
                forall|i: int| 0 <= i < index ==> #[trigger] holds_sphere(words@, 4 * i),
                forall|i: int| 0 <= i < index ==> #[trigger] spheres@[i] == sphere_in(words@, 4 * i),
            decreases count - index,
        {
            let start: usize = 4 * index;
            let x = decode_halves(words[start]);
            let y = decode_halves(words[start + 1]);
            let z = decode_halves(words[start + 2]);
            let r = decode_halves(words[start + 3]);
            match (x, y, z, r) {
                (Some(x), Some(y), Some(z), Some(r)) => {
                    let sphere = Sphere { center: [x, y, z], radius: r };
                    proof {
                        assert(holds_sphere(words@, 4 * index));
                        assert(sphere.center =~= sphere_in(words@, 4 * index).center);
                    }
                    spheres.push(sphere);
                },
                _ => {
                    proof {
                        if is_scene_image(words@) {
                            assert(holds_sphere(words@, 4 * index));
                        }
                    }
                    return None;
                },
            }
            index = index + 1;
        }
        let scene = SceneData { spheres, width: words[4 * count], height: words[4 * count + 1] };
        proof {
            assert(scene@.spheres =~= scene_in(words@).spheres);
        }
        Some(scene)
    }
}

} // verus!
