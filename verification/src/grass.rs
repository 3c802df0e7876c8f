//! Blades of grass and the chunks that batch them.

use vstd::prelude::*;
use crate::scalar::{
    higher_of, highest, lemma_extremes_step, lemma_highest_is_greatest, lemma_lowest_is_least,
    lower_of, lowest, rank,
};

verus! {

/// Three single-precision components, each held as its bit pattern.
#[derive(Clone, Copy, Debug, PartialEq, Eq, Structural)]
pub struct Vec3 {
    pub x: u32,
    pub y: u32,
    pub z: u32,
}

/// A single blade: where it stands, relative to its chunk, and how tall it is.
#[derive(Clone, Copy, Debug, PartialEq, Eq, Structural)]
pub struct GrassBlade {
    pub position: Vec3,
    pub height: u32,
}

/// A chunk of blades that is drawn with one instanced call.
#[derive(Debug)]
pub struct Grass {
    pub instances: Vec<GrassBlade>,
}

impl View for Grass {
    type V = Seq<GrassBlade>;

    open spec fn view(&self) -> Seq<GrassBlade> {
        self.instances@
    }
}

impl Default for Grass {
    fn default() -> (grass: Grass)
        ensures
            grass@ == Seq::<GrassBlade>::empty(),
    {
        Grass { instances: Vec::new() }
    }
}

impl Clone for Grass {
    fn clone(&self) -> (copy: Grass)
        ensures
            copy@ == self@,
    {
        Grass { instances: self.instances.clone() }
    }
}

/// An axis-aligned box, given by its lowest and its highest corner.
#[derive(Clone, Copy, Debug, PartialEq, Eq, Structural)]
pub struct Aabb {
    pub min: Vec3,
    pub max: Vec3,
}

/// The bit pattern of the largest finite single-precision value.
pub const LARGEST: u32 = 0x7f7f_ffffu32;

/// The bit pattern of the smallest finite single-precision value.
pub const SMALLEST: u32 = 0xff7f_ffffu32;

/// The first components of a sequence of points.
pub open spec fn xs(points: Seq<Vec3>) -> Seq<u32> {
    Seq::new(points.len(), |i: int| points[i].x)
}

/// The second components of a sequence of points.
pub open spec fn ys(points: Seq<Vec3>) -> Seq<u32> {
    Seq::new(points.len(), |i: int| points[i].y)
}

/// The third components of a sequence of points.
pub open spec fn zs(points: Seq<Vec3>) -> Seq<u32> {
    Seq::new(points.len(), |i: int| points[i].z)
}

/// Where the blades of a chunk stand.
pub open spec fn positions(blades: Seq<GrassBlade>) -> Seq<Vec3> {
    Seq::new(blades.len(), |i: int| blades[i].position)
}

/// The box around no blade at all: its lowest corner lies above its highest, so that it
/// holds no point.
pub open spec fn inverted_box() -> Aabb {
    Aabb {
        min: Vec3 { x: LARGEST, y: LARGEST, z: LARGEST },
        max: Vec3 { x: SMALLEST, y: SMALLEST, z: SMALLEST },
    }
}

/// The box around the blades of a chunk: in each component, from the lowest of the
/// positions to the highest of the tips. Without blades it is the inverted box.
pub open spec fn bounding_box(blades: Seq<GrassBlade>, tips: Seq<Vec3>) -> Aabb {
    if blades.len() == 0 {
        inverted_box()
    } else {
        Aabb {
            min: Vec3 {
                x: lowest(xs(positions(blades))),
                y: lowest(ys(positions(blades))),
                z: lowest(zs(positions(blades))),
            },
            max: Vec3 { x: highest(xs(tips)), y: highest(ys(tips)), z: highest(zs(tips)) },
        }
    }
}

/// Whether no component of the first point ranks above that of the second.
pub open spec fn below(a: Vec3, b: Vec3) -> bool {
    rank(a.x) <= rank(b.x) && rank(a.y) <= rank(b.y) && rank(a.z) <= rank(b.z)
}

/// The box around a chunk with blades reaches, in every component, down to every position
/// and up to every tip.
pub proof fn lemma_box_bounds_blades(blades: Seq<GrassBlade>, tips: Seq<Vec3>)
    requires
        blades.len() > 0,
        tips.len() == blades.len(),
    ensures
        forall|i: int|
            0 <= i < blades.len() ==> below(
                bounding_box(blades, tips).min,
                (#[trigger] blades[i]).position,
            ),
        forall|i: int|
            0 <= i < tips.len() ==> below(#[trigger] tips[i], bounding_box(blades, tips).max),
{
    let at = positions(blades);
    lemma_lowest_is_least(xs(at));
    lemma_lowest_is_least(ys(at));
    lemma_lowest_is_least(zs(at));
    lemma_highest_is_greatest(xs(tips));
    lemma_highest_is_greatest(ys(tips));
    lemma_highest_is_greatest(zs(tips));
    assert forall|i: int| 0 <= i < blades.len() implies below(
        bounding_box(blades, tips).min,
        (#[trigger] blades[i]).position,
    ) by {
        assert(xs(at)[i] == blades[i].position.x);
        assert(ys(at)[i] == blades[i].position.y);
        assert(zs(at)[i] == blades[i].position.z);
    }
    assert forall|i: int| 0 <= i < tips.len() implies below(
        #[trigger] tips[i],
        bounding_box(blades, tips).max,
    ) by {
        assert(xs(tips)[i] == tips[i].x);
        assert(ys(tips)[i] == tips[i].y);
        assert(zs(tips)[i] == tips[i].z);
    }
}

impl Grass {
    /// A chunk made of the given blades, in their order.
    pub fn new(instances: Vec<GrassBlade>) -> (grass: Grass)
        ensures
            grass@ == instances@,
    {
        Grass { instances }
    }

    /// Calculates the box that contains all blades of the chunk. `tips` holds, for each
    /// blade, the point at its top: its position raised by its height.
    pub fn calculate_aabb(&self, tips: &Vec<Vec3>) -> (aabb: Aabb)
        requires
            tips@.len() == self@.len(),
        ensures
            aabb == bounding_box(self@, tips@),
            forall|i: int| 0 <= i < self@.len() ==> below(aabb.min, (#[trigger] self@[i]).position),
            forall|i: int| 0 <= i < self@.len() ==> below(#[trigger] tips@[i], aabb.max),
    {
        let count = self.instances.len();
        if count == 0 {
            return Aabb {
                min: Vec3 { x: LARGEST, y: LARGEST, z: LARGEST },
                max: Vec3 { x: SMALLEST, y: SMALLEST, z: SMALLEST },
            };
        }
        let ghost at = positions(self@);
        let mut inner = self.instances[0].position;
        let mut outer = tips[0];
        assert(xs(at).take(1)[0] == inner.x && ys(at).take(1)[0] == inner.y && zs(at).take(1)[0]
            == inner.z);
        assert(xs(tips@).take(1)[0] == outer.x && ys(tips@).take(1)[0] == outer.y && zs(
            tips@,
        ).take(1)[0] == outer.z);
        let mut i: usize = 1;
        while i < count
            invariant
                1 <= i <= count,
                count == self@.len(),
                count == tips@.len(),
                at == positions(self@),
                inner.x == lowest(xs(at).take(i as int)),
                inner.y == lowest(ys(at).take(i as int)),
                inner.z == lowest(zs(at).take(i as int)),
                outer.x == highest(xs(tips@).take(i as int)),
                outer.y == highest(ys(tips@).take(i as int)),
                outer.z == highest(zs(tips@).take(i as int)),
            decreases count - i,
        {
            let position = self.instances[i].position;
            let tip = tips[i];
            proof {
                lemma_extremes_step(xs(at), i as int);
                lemma_extremes_step(ys(at), i as int);
                lemma_extremes_step(zs(at), i as int);
                lemma_extremes_step(xs(tips@), i as int);
                lemma_extremes_step(ys(tips@), i as int);
                lemma_extremes_step(zs(tips@), i as int);
            }
            inner = Vec3 {
                x: lower_of(inner.x, position.x),
                y: lower_of(inner.y, position.y),
                z: lower_of(inner.z, position.z),
            };
            outer = Vec3 {
                x: higher_of(outer.x, tip.x),
                y: higher_of(outer.y, tip.y),
                z: higher_of(outer.z, tip.z),
            };
            i += 1;
        }
        proof {
            assert(xs(at).take(i as int) =~= xs(at));
            assert(ys(at).take(i as int) =~= ys(at));
            assert(zs(at).take(i as int) =~= zs(at));
            assert(xs(tips@).take(i as int) =~= xs(tips@));
            assert(ys(tips@).take(i as int) =~= ys(tips@));
            assert(zs(tips@).take(i as int) =~= zs(tips@));
            lemma_box_bounds_blades(self@, tips@);
        }
        Aabb { min: inner, max: outer }
    }
}

} // verus!
