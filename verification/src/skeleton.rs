//! Skeleton and animation runtime: bones, keyframed poses, and the
//! compiled animation with its topologically ordered bone list.
//!
//! A bone with a single pose shows that pose at every moment.  A bone
//! with two or more poses is a piecewise-linear keyframe track over
//! `[0, duration)`: the bracketing pair of keyframes is found by a linear
//! scan, and past the last keyframe the track wraps around, pairing the
//! last keyframe with the first under an upper bound of `duration`.

use vstd::prelude::*;

use crate::fx::{
    fx_add, fx_div, fx_mul, fx_sub, fx_tdiv, spec_fx_add, spec_fx_div, spec_fx_mul, spec_fx_sub,
    FX_ONE,
};
use crate::geometry::{
    spec_mat2_mul, spec_mat2_rotation, spec_mat2_scale, spec_mat2_translation, Matrix2D,
};
use crate::ids::MediumId;

verus! {

/// Index of a bone within its animation.
pub type BoneIndex = usize;

/// The variant selected when none is named.
pub const VARIANT_NAME_DEFAULT: &'static str = "default";

/// The variant used for sprites held by another sprite.
pub const VARIANT_NAME_HELD: &'static str = "held";

/// The action selected when none is named.
pub const ACTION_NAME_DEFAULT: &'static str = "idle";

/// The hover box of a skin, used by interaction picking.
#[derive(Clone, Copy, Debug, PartialEq, Eq, Structural)]
pub struct Interaction {
    pub left: i64,
    pub right: i64,
    pub top: i64,
    pub bottom: i64,
}

impl Interaction {
    /// Pack a hover box.
    pub fn new(left: i64, right: i64, top: i64, bottom: i64) -> (r: Interaction)
        ensures
            r.left == left,
            r.right == right,
            r.top == top,
            r.bottom == bottom,
    {
        Interaction { left, right, top, bottom }
    }
}

/// One atlas sub-image's placement metadata.
#[derive(Clone, Copy, Debug, PartialEq, Eq, Structural)]
pub struct Image {
    pub pivot_x: i64,
    pub pivot_y: i64,
    pub size_x: i64,
    pub size_y: i64,
}

impl Image {
    /// Pack a pivot and a size.
    pub fn new(pivot: (i64, i64), size: (i64, i64)) -> (r: Image)
        ensures
            r.pivot_x == pivot.0,
            r.pivot_y == pivot.1,
            r.size_x == size.0,
            r.size_y == size.1,
    {
        Image { pivot_x: pivot.0, pivot_y: pivot.1, size_x: size.0, size_y: size.1 }
    }

    /// The pivot point.
    pub fn get_pivot(&self) -> (r: (i64, i64))
        ensures
            r.0 == self.pivot_x,
            r.1 == self.pivot_y,
    {
        (self.pivot_x, self.pivot_y)
    }

    /// The image size.
    pub fn get_size(&self) -> (r: (i64, i64))
        ensures
            r.0 == self.size_x,
            r.1 == self.size_y,
    {
        (self.size_x, self.size_y)
    }
}

/// One keyframe of a bone: a moment in time, an optional image
/// reference, and a local offset, scale and rotation.
#[derive(Clone, Copy, Debug)]
pub struct Pose {
    pub moment: i64,
    pub image_id: Option<MediumId>,
    pub position_x: i64,
    pub position_y: i64,
    pub scale_x: i64,
    pub scale_y: i64,
    pub angle: i64,
}

/// What a pose's local transform is: scale, then translate, then rotate,
/// composed in exactly that order.
pub open spec fn spec_pose_transform(
    position_x: int,
    position_y: int,
    scale_x: int,
    scale_y: int,
    angle: int,
) -> Matrix2D {
    spec_mat2_mul(
        spec_mat2_mul(
            spec_mat2_scale(scale_x, scale_y),
            spec_mat2_translation(position_x, position_y),
        ),
        spec_mat2_rotation(angle),
    )
}

impl Pose {
    /// Pack one keyframe.
    pub fn new(
        moment: i64,
        image_id: Option<MediumId>,
        position: (i64, i64),
        scale: (i64, i64),
        angle: i64,
    ) -> (r: Pose)
        ensures
            r.moment == moment,
            r.image_id == image_id,
            r.position_x == position.0,
            r.position_y == position.1,
            r.scale_x == scale.0,
            r.scale_y == scale.1,
            r.angle == angle,
    {
        Pose {
            moment,
            image_id,
            position_x: position.0,
            position_y: position.1,
            scale_x: scale.0,
            scale_y: scale.1,
            angle,
        }
    }

    /// The local transform of this pose.
    pub fn calc_transformation(&self) -> (r: Matrix2D)
        ensures
            r == spec_pose_transform(
                self.position_x as int,
                self.position_y as int,
                self.scale_x as int,
                self.scale_y as int,
                self.angle as int,
            ),
    {
        let s = Matrix2D::scale((self.scale_x, self.scale_y));
        let t = Matrix2D::translation((self.position_x, self.position_y));
        let rot = Matrix2D::rotation(self.angle);
        s.times(&t).times(&rot)
    }
}

/// One joint of a skeleton: an optional parent, its keyframes in
/// ascending time order, and its name (the hook other sprites attach to).
#[derive(Clone, Debug)]
#[verifier::ext_equal]
pub struct Bone {
    pub parent_index: Option<BoneIndex>,
    pub poses: Vec<Pose>,
    pub name: String,
}

/// The ghost form of a bone.
#[verifier::ext_equal]
pub struct BoneV {
    pub parent_index: Option<BoneIndex>,
    pub poses: Seq<Pose>,
    pub name: Seq<char>,
}

impl View for Bone {
    type V = BoneV;

    open spec fn view(&self) -> BoneV {
        BoneV { parent_index: self.parent_index, poses: self.poses@, name: self.name@ }
    }
}

/// The linear interpolation of two keyframe fields under the given
/// weights.
pub open spec fn spec_blend(w1: int, a: int, w2: int, b: int) -> int {
    spec_fx_add(spec_fx_mul(w1, a), spec_fx_mul(w2, b))
}

/// The interpolated state between two poses: `p1` at moment `m1` and
/// `p2` at moment `m2`, queried at `t`.  Position, scale and angle are
/// blended; the image reference comes from `p1`, never blended.
pub open spec fn spec_state_between(
    p1: Pose,
    p2: Pose,
    m1: int,
    m2: int,
    t: int,
) -> (Matrix2D, Option<MediumId>)
    recommends
        m1 < m2,
{
    let w1 = spec_fx_div(spec_fx_sub(m2, t), spec_fx_sub(m2, m1));
    let w2 = spec_fx_sub(FX_ONE as int, w1);
    (
        spec_pose_transform(
            spec_blend(w1, p1.position_x as int, w2, p2.position_x as int),
            spec_blend(w1, p1.position_y as int, w2, p2.position_y as int),
            spec_blend(w1, p1.scale_x as int, w2, p2.scale_x as int),
            spec_blend(w1, p1.scale_y as int, w2, p2.scale_y as int),
            spec_blend(w1, p1.angle as int, w2, p2.angle as int),
        ),
        p1.image_id,
    )
}

/// Whether `i` is the first index whose keyframe pair brackets `t`.
pub open spec fn is_first_bracket(poses: Seq<Pose>, t: int, i: int) -> bool {
    &&& 0 <= i < poses.len() - 1
    &&& poses[i].moment <= t <= poses[i + 1].moment
    &&& forall|j: int| 0 <= j < i ==> t > #[trigger] poses[j + 1].moment
}

/// The first bracketing index for `t`.
pub open spec fn spec_bracket(poses: Seq<Pose>, t: int) -> int {
    choose|i: int| is_first_bracket(poses, t, i)
}

/// The first bracketing index is unique.
pub proof fn lemma_bracket_unique(poses: Seq<Pose>, t: int, i1: int, i2: int)
    requires
        is_first_bracket(poses, t, i1),
        is_first_bracket(poses, t, i2),
    ensures
        i1 == i2,
{
    if i1 < i2 {
        assert(t > poses[i1 + 1].moment);
    }
    if i2 < i1 {
        assert(t > poses[i2 + 1].moment);
    }
}

/// What a bone's state at a moment is.  A single-pose bone returns that
/// pose for any moment.  A multi-pose bone reduces the moment modulo the
/// duration, then blends the bracketing keyframe pair; past the last
/// keyframe it wraps, pairing the last keyframe with the first under an
/// upper bound of `duration`.
pub open spec fn spec_calc_state_at(b: Bone, moment: int, duration: int) -> (
    Matrix2D,
    Option<MediumId>,
) {
    if b.poses@.len() < 2 {
        (
            spec_pose_transform(
                b.poses@[0].position_x as int,
                b.poses@[0].position_y as int,
                b.poses@[0].scale_x as int,
                b.poses@[0].scale_y as int,
                b.poses@[0].angle as int,
            ),
            b.poses@[0].image_id,
        )
    } else {
        let t = moment % duration;
        let last = b.poses@[b.poses@.len() - 1];
        if t < last.moment {
            let i = spec_bracket(b.poses@, t);
            spec_state_between(
                b.poses@[i],
                b.poses@[i + 1],
                b.poses@[i].moment as int,
                b.poses@[i + 1].moment as int,
                t,
            )
        } else {
            spec_state_between(last, b.poses@[0], last.moment as int, duration, t)
        }
    }
}

impl Bone {
    /// Whether the keyframe track is well formed: nonempty, with
    /// nonnegative moments in strictly ascending order.
    pub open spec fn wf(&self) -> bool {
        &&& self.poses@.len() >= 1
        &&& forall|i: int, j: int|
            0 <= i < j < self.poses@.len() ==> #[trigger] self.poses@[i].moment
                < #[trigger] self.poses@[j].moment
        &&& forall|i: int| 0 <= i < self.poses@.len() ==> #[trigger] self.poses@[i].moment >= 0
    }

    /// Pack a bone.
    pub fn new(parent_index: Option<BoneIndex>, poses: Vec<Pose>, name: String) -> (r: Bone)
        ensures
            r.parent_index == parent_index,
            r.poses == poses,
            r.name == name,
    {
        Bone { parent_index, poses, name }
    }

    /// The parent's index, if the bone is not a root.
    pub fn get_parent_index(&self) -> (r: Option<BoneIndex>)
        ensures
            r == self.parent_index,
    {
        self.parent_index
    }

    /// The bone's name.
    pub fn get_name(&self) -> (r: &str)
        ensures
            r@ == self.name@,
    {
        self.name.as_str()
    }

    /// The bone's state at a moment of an animation with the given
    /// duration.
    pub fn calc_state_at(&self, moment: i64, duration: i64) -> (r: (Matrix2D, Option<MediumId>))
        requires
            self.wf(),
            self.poses@.len() >= 2 ==> duration > 0 && moment >= 0 && self.poses@[self.poses@.len()
                - 1].moment < duration && (moment as int) % (duration as int)
                >= self.poses@[0].moment,
        ensures
            r.0 == spec_calc_state_at(*self, moment as int, duration as int).0,
            r.1 == spec_calc_state_at(*self, moment as int, duration as int).1,
            r.1 matches Option::Some(m) ==> exists|p: int|
                0 <= p < self.poses@.len() && (#[trigger] self.poses@[p]).image_id
                    == Option::Some(m),
    {
        if self.poses.len() < 2 {
            self.calc_state_at_single()
        } else {
            self.calc_state_at_multi(moment, duration)
        }
    }

    fn calc_state_at_single(&self) -> (r: (Matrix2D, Option<MediumId>))
        requires
            self.wf(),
            self.poses@.len() < 2,
        ensures
            r.0 == spec_calc_state_at(*self, 0, 1).0,
            r.1 == spec_calc_state_at(*self, 0, 1).1,
            forall|moment: int, duration: int|
                r.0 == #[trigger] spec_calc_state_at(*self, moment, duration).0 && r.1
                    == spec_calc_state_at(*self, moment, duration).1,
            r.1 matches Option::Some(m) ==> exists|p: int|
                0 <= p < self.poses@.len() && (#[trigger] self.poses@[p]).image_id
                    == Option::Some(m),
    {
        let pose = &self.poses[0];
        proof {
            assert(self.poses@[0].image_id == self.poses@[0].image_id);
        }
        (pose.calc_transformation(), pose.image_id)
    }

    fn calc_state_at_multi(&self, moment: i64, duration: i64) -> (r: (
        Matrix2D,
        Option<MediumId>,
    ))
        requires
            self.wf(),
            self.poses@.len() >= 2,
            duration > 0,
            moment >= 0,
            self.poses@[self.poses@.len() - 1].moment < duration,
            (moment as int) % (duration as int) >= self.poses@[0].moment,
        ensures
            r.0 == spec_calc_state_at(*self, moment as int, duration as int).0,
            r.1 == spec_calc_state_at(*self, moment as int, duration as int).1,
            r.1 matches Option::Some(m) ==> exists|p: int|
                0 <= p < self.poses@.len() && (#[trigger] self.poses@[p]).image_id
                    == Option::Some(m),
    {
        let t = crate::fx::fx_emod(moment, duration);
        let n = self.poses.len();
        let last_moment = self.poses[n - 1].moment;
        if t < last_moment {
            let (i1, i2, m1, m2) = self.find_poses_for_moment(t);
            proof {
                lemma_bracket_unique(
                    self.poses@,
                    t as int,
                    spec_bracket(self.poses@, t as int),
                    i1 as int,
                );
            }
            let r = Bone::state_between(&self.poses[i1], &self.poses[i2], m1, m2, t);
            proof {
                assert(self.poses@[i1 as int].image_id == self.poses@[i1 as int].image_id);
            }
            r
        } else {
            let r = Bone::state_between(&self.poses[n - 1], &self.poses[0], last_moment, duration, t);
            proof {
                assert(self.poses@[n - 1].image_id == self.poses@[n - 1].image_id);
            }
            r
        }
    }

    /// The first pair of consecutive keyframes bracketing `t`, as
    /// `(first index, second index, first moment, second moment)`.
    fn find_poses_for_moment(&self, t: i64) -> (r: (usize, usize, i64, i64))
        requires
            self.wf(),
            self.poses@.len() >= 2,
            self.poses@[0].moment <= t,
            t < self.poses@[self.poses@.len() - 1].moment,
        ensures
            is_first_bracket(self.poses@, t as int, r.0 as int),
            r.1 == r.0 + 1,
            r.2 == self.poses@[r.0 as int].moment,
            r.3 == self.poses@[r.0 + 1].moment,
    {
        let n = self.poses.len();
        let mut i: usize = 0;
        while i < n - 1
            invariant
                self.wf(),
                self.poses@.len() == n,
                n >= 2,
                0 <= i <= n - 1,
                self.poses@[i as int].moment <= t,
                t < self.poses@[n - 1].moment,
                forall|j: int| 0 <= j < i ==> t > #[trigger] self.poses@[j + 1].moment,
            decreases n - i,
        {
            if t <= self.poses[i + 1].moment {
                return (i, i + 1, self.poses[i].moment, self.poses[i + 1].moment);
            }
            i = i + 1;
        }
        proof {
            assert(t > self.poses@[n - 2 + 1].moment);
            assert(false);
        }
        (0, 1, 0, 0)
    }

    fn state_between(p1: &Pose, p2: &Pose, m1: i64, m2: i64, t: i64) -> (r: (
        Matrix2D,
        Option<MediumId>,
    ))
        requires
            m1 < m2,
        ensures
            r.0 == spec_state_between(*p1, *p2, m1 as int, m2 as int, t as int).0,
            r.1 == spec_state_between(*p1, *p2, m1 as int, m2 as int, t as int).1,
    {
        let d = fx_sub(m2, m1);
        proof {
            assert(spec_fx_sub(m2 as int, m1 as int) != 0);
        }
        let w1 = fx_div(fx_sub(m2, t), d);
        let w2 = fx_sub(FX_ONE, w1);
        let px = fx_add(fx_mul(w1, p1.position_x), fx_mul(w2, p2.position_x));
        let py = fx_add(fx_mul(w1, p1.position_y), fx_mul(w2, p2.position_y));
        let sx = fx_add(fx_mul(w1, p1.scale_x), fx_mul(w2, p2.scale_x));
        let sy = fx_add(fx_mul(w1, p1.scale_y), fx_mul(w2, p2.scale_y));
        let ang = fx_add(fx_mul(w1, p1.angle), fx_mul(w2, p2.angle));
        let s = Matrix2D::scale((sx, sy));
        let tr = Matrix2D::translation((px, py));
        let rot = Matrix2D::rotation(ang);
        (s.times(&tr).times(&rot), p1.image_id)
    }
}

/// Whether the parent chain of bone `i` reaches a root within `fuel`
/// steps, staying inside the bone list.
pub open spec fn spec_rooted(bones: Seq<Bone>, i: int, fuel: nat) -> bool
    decreases fuel,
{
    if !(0 <= i < bones.len()) {
        false
    } else {
        match bones[i].parent_index {
            Option::None => true,
            Option::Some(p) => fuel > 0 && spec_rooted(bones, p as int, (fuel - 1) as nat),
        }
    }
}

/// Whether the parent links form a forest: every bone's parent chain
/// reaches a root.
pub open spec fn spec_is_forest(bones: Seq<Bone>) -> bool {
    forall|i: int| 0 <= i < bones.len() ==> spec_rooted(bones, i, bones.len() as nat)
}

/// A sequence of distinct values below `n` has at most `n` elements.
proof fn lemma_distinct_below_bound(s: Seq<usize>, n: nat)
    requires
        forall|k1: int, k2: int|
            0 <= k1 < k2 < s.len() ==> #[trigger] s[k1] != #[trigger] s[k2],
        forall|k: int| 0 <= k < s.len() ==> (#[trigger] s[k]) < n,
    ensures
        s.len() <= n,
{
    let si = s.map_values(|u: usize| u as int);
    assert(si.no_duplicates()) by {
        assert(forall|k1: int, k2: int|
            0 <= k1 < si.len() && 0 <= k2 < si.len() && k1 != k2 ==> si[k1] != si[k2]);
    }
    si.unique_seq_to_set();
    assert(si.to_set().subset_of(vstd::set_lib::set_int_range(0, n as int))) by {
        assert forall|x: int| si.to_set().contains(x) implies 0 <= x < n by {
            let k = choose|k: int| 0 <= k < si.len() && si[k] == x;
            assert(si.contains(x));
            let k2 = choose|k2: int| 0 <= k2 < si.len() && si[k2] == x;
            assert(0 <= k2 < s.len() && s[k2] as int == x);
        }
    }
    vstd::set_lib::lemma_int_range(0, n as int);
    vstd::set_lib::lemma_len_subset(si.to_set(), vstd::set_lib::set_int_range(0, n as int));
}

/// In a rooted chain with an unplaced start, some unplaced bone is
/// eligible: its parent is a root or already placed.
proof fn lemma_rooted_progress(bones: Seq<Bone>, placed: Seq<bool>, i: int, fuel: nat)
    requires
        bones.len() == placed.len(),
        0 <= i < bones.len(),
        !placed[i],
        spec_rooted(bones, i, fuel),
    ensures
        exists|m: int|
            0 <= m < bones.len() && !placed[m] && (bones[m].parent_index is None
                || (bones[m].parent_index matches Option::Some(p) && p < bones.len()
                && placed[p as int])),
    decreases fuel,
{
    match bones[i].parent_index {
        Option::None => {
            assert(0 <= i < bones.len() && !placed[i] && bones[i].parent_index is None);
        },
        Option::Some(p) => {
            assert(spec_rooted(bones, p as int, (fuel - 1) as nat));
            assert(0 <= p < bones.len());
            if placed[p as int] {
                assert(0 <= i < bones.len() && !placed[i] && (bones[i].parent_index
                    matches Option::Some(q) && q < bones.len() && placed[q as int]));
            } else {
                lemma_rooted_progress(bones, placed, p as int, (fuel - 1) as nat);
            }
        },
    }
}

fn copy_poses(v: &Vec<Pose>) -> (r: Vec<Pose>)
    ensures
        r@ == v@,
{
    let mut r: Vec<Pose> = Vec::new();
    let mut i: usize = 0;
    while i < v.len()
        invariant
            0 <= i <= v@.len(),
            r@ =~= v@.subrange(0, i as int),
        decreases v@.len() - i,
    {
        r.push(v[i]);
        i = i + 1;
    }
    proof {
        assert(r@ =~= v@);
    }
    r
}

fn filled_bools(n: usize) -> (r: Vec<bool>)
    ensures
        r@.len() == n,
        forall|i: int| 0 <= i < n ==> !(#[trigger] r@[i]),
{
    let mut r: Vec<bool> = Vec::new();
    let mut i: usize = 0;
    while i < n
        invariant
            0 <= i <= n,
            r@.len() == i,
            forall|j: int| 0 <= j < i ==> !(#[trigger] r@[j]),
        decreases n - i,
    {
        r.push(false);
        i = i + 1;
    }
    r
}

fn filled_usizes(n: usize) -> (r: Vec<usize>)
    ensures
        r@.len() == n,
{
    let mut r: Vec<usize> = Vec::new();
    let mut i: usize = 0;
    while i < n
        invariant
            0 <= i <= n,
            r@.len() == i,
        decreases n - i,
    {
        r.push(0);
        i = i + 1;
    }
    r
}

fn copy_bools(v: &Vec<bool>) -> (r: Vec<bool>)
    ensures
        r@ == v@,
{
    let mut r: Vec<bool> = Vec::new();
    let mut i: usize = 0;
    while i < v.len()
        invariant
            0 <= i <= v@.len(),
            r@ =~= v@.subrange(0, i as int),
        decreases v@.len() - i,
    {
        r.push(v[i]);
        i = i + 1;
    }
    proof {
        assert(r@ =~= v@);
    }
    r
}

/// One playable animation: named, timed, with bones in
/// parent-before-child order and a separate paint-order permutation.
#[derive(Clone, Debug)]
#[verifier::ext_equal]
pub struct Animation {
    pub name: String,
    pub duration: i64,
    pub is_looped: bool,
    pub scale: i64,
    pub bones: Vec<Bone>,
    pub draw_order: Vec<BoneIndex>,
}

impl Animation {
    /// Whether the compiled animation is well formed: parents precede
    /// their children, the paint order is a permutation of the bone
    /// indices, every keyframe track is well formed and bounded by the
    /// duration.
    pub open spec fn wf(&self) -> bool {
        &&& self.duration > 0
        &&& self.scale != 0
        &&& self.bones@.len() == self.draw_order@.len()
        &&& forall|i: int|
            0 <= i < self.bones@.len() ==> (#[trigger] self.bones@[i].parent_index
                matches Option::Some(p) ==> (p as int) < i)
        &&& forall|i: int|
            0 <= i < self.draw_order@.len() ==> (#[trigger] self.draw_order@[i] as int)
                < self.bones@.len()
        &&& forall|k1: int, k2: int|
            0 <= k1 < k2 < self.draw_order@.len() ==> #[trigger] self.draw_order@[k1]
                != #[trigger] self.draw_order@[k2]
        &&& forall|i: int| 0 <= i < self.bones@.len() ==> (#[trigger] self.bones@[i]).wf()
        &&& forall|i: int|
            0 <= i < self.bones@.len() ==> ((#[trigger] self.bones@[i]).poses@.len() >= 2
                ==> self.bones@[i].poses@[self.bones@[i].poses@.len() - 1].moment
                < self.duration)
    }

    /// Compile an animation from bones in authoring order: reorder the
    /// bones so that every parent precedes its children, remap parent
    /// references, and record the authoring order as the paint order.
    /// Fails exactly when some parent chain never reaches a root.
    pub fn new(
        name: String,
        duration: i64,
        is_looped: bool,
        scale: i64,
        unordered_bones: Vec<Bone>,
    ) -> (r: Result<Animation, crate::errors::LoadError>)
        requires
            duration > 0,
            scale != 0,
            forall|i: int|
                0 <= i < unordered_bones@.len() ==> (#[trigger] unordered_bones@[i]).wf(),
            forall|i: int|
                0 <= i < unordered_bones@.len() ==> ((#[trigger] unordered_bones@[i]).poses@.len()
                    >= 2 ==> unordered_bones@[i].poses@[unordered_bones@[i].poses@.len()
                    - 1].moment < duration),
        ensures
            spec_is_forest(unordered_bones@) ==> r is Ok,
            r matches Ok(a) ==> {
                &&& a.wf()
                &&& a.name == name
                &&& a.duration == duration
                &&& a.is_looped == is_looped
                &&& a.scale == scale
                &&& a.bones@.len() == unordered_bones@.len()
                &&& a.draw_order@.len() == unordered_bones@.len()
                &&& forall|i: int|
                    0 <= i < unordered_bones@.len() ==> {
                        let d = #[trigger] a.draw_order@[i] as int;
                        &&& a.bones@[d].name == unordered_bones@[i].name
                        &&& a.bones@[d].poses@ == unordered_bones@[i].poses@
                        &&& (unordered_bones@[i].parent_index is None ==> a.bones@[d].parent_index
                            is None)
                        &&& (unordered_bones@[i].parent_index matches Option::Some(p)
                            ==> (p as int) < unordered_bones@.len()
                            && a.bones@[d].parent_index == Option::Some(a.draw_order@[p as int]))
                    }
            },
    {
        let n = unordered_bones.len();
        let mut calc_order: Vec<usize> = Vec::new();
        let mut order_map: Vec<usize> = filled_usizes(n);
        let mut placed: Vec<bool> = filled_bools(n);
        while calc_order.len() < n
            invariant
                n == unordered_bones@.len(),
                placed@.len() == n,
                order_map@.len() == n,
                calc_order@.len() <= n,
                forall|k: int|
                    0 <= k < calc_order@.len() ==> (#[trigger] calc_order@[k] as int) < n
                        && placed@[calc_order@[k] as int] && order_map@[calc_order@[k] as int]
                        as int == k,
                forall|i: int|
                    0 <= i < n && #[trigger] placed@[i] ==> (order_map@[i] as int)
                        < calc_order@.len() && calc_order@[order_map@[i] as int] as int == i,
                forall|k: int|
                    0 <= k < calc_order@.len() ==> ((#[trigger] unordered_bones@[calc_order@[k]
                        as int].parent_index) matches Option::Some(p) ==> (p as int) < n
                        && placed@[p as int] && (order_map@[p as int] as int) < k),
                forall|i: int|
                    0 <= i < unordered_bones@.len() ==> (#[trigger] unordered_bones@[i]).wf(),
            decreases n - calc_order@.len(),
        {
            let start_len = calc_order.len();
            let snapshot = copy_bools(&placed);
            let mut bone_index: usize = 0;
            while bone_index < n
                invariant
                    n == unordered_bones@.len(),
                    placed@.len() == n,
                    order_map@.len() == n,
                    snapshot@.len() == n,
                    start_len <= calc_order@.len(),
                    forall|i: int| 0 <= i < n && #[trigger] snapshot@[i] ==> placed@[i],
                    calc_order@.len() == start_len ==> placed@ == snapshot@,
                    0 <= bone_index <= n,
                    forall|k: int|
                        0 <= k < calc_order@.len() ==> (#[trigger] calc_order@[k] as int) < n
                            && placed@[calc_order@[k] as int] && order_map@[calc_order@[k] as int]
                            as int == k,
                    forall|i: int|
                        0 <= i < n && #[trigger] placed@[i] ==> (order_map@[i] as int)
                            < calc_order@.len() && calc_order@[order_map@[i] as int] as int == i,
                    forall|k: int|
                        0 <= k < calc_order@.len() ==> ((#[trigger] unordered_bones@[calc_order@[k]
                            as int].parent_index) matches Option::Some(p) ==> (p as int) < n
                            && placed@[p as int] && (order_map@[p as int] as int) < k),
                    forall|i: int|
                        0 <= i < bone_index && !(#[trigger] placed@[i]) ==> !(
                        unordered_bones@[i].parent_index is None) && !(
                        unordered_bones@[i].parent_index matches Option::Some(p)
                            && (p as int) < n && snapshot@[p as int]),
                decreases n - bone_index,
            {
                if !placed[bone_index] {
                    let eligible = match unordered_bones[bone_index].get_parent_index() {
                        Option::None => true,
                        Option::Some(p) => p < n && snapshot[p],
                    };
                    if eligible {
                        order_map.set(bone_index, calc_order.len());
                        calc_order.push(bone_index);
                        placed.set(bone_index, true);
                    }
                }
                bone_index = bone_index + 1;
            }
            proof {
                assert(forall|k1: int, k2: int|
                    0 <= k1 < k2 < calc_order@.len() ==> #[trigger] calc_order@[k1]
                        != #[trigger] calc_order@[k2]) by {
                    assert(forall|k1: int, k2: int|
                        0 <= k1 < k2 < calc_order@.len() && calc_order@[k1] == calc_order@[k2]
                            ==> k1 == k2);
                }
                lemma_distinct_below_bound(calc_order@, n as nat);
            }
            if calc_order.len() == start_len {
                proof {
                    if spec_is_forest(unordered_bones@) {
                        let missing = choose|i: int| 0 <= i < n && !placed@[i];
                        assert(exists|i: int| 0 <= i < n && !placed@[i]) by {
                            if forall|i: int| 0 <= i < n ==> #[trigger] placed@[i] {
                                let om = Seq::new(n as nat, |i: int| order_map@[i]);
                                assert forall|i1: int, i2: int|
                                    0 <= i1 < i2 < om.len() implies #[trigger] om[i1]
                                    != #[trigger] om[i2] by {
                                    assert(placed@[i1]);
                                    assert(placed@[i2]);
                                    assert(calc_order@[order_map@[i1] as int] as int == i1);
                                    assert(calc_order@[order_map@[i2] as int] as int == i2);
                                }
                                assert forall|i: int|
                                    0 <= i < om.len() implies (#[trigger] om[i] as int)
                                    < calc_order@.len() by {
                                    assert(placed@[i]);
                                }
                                lemma_distinct_below_bound(om, calc_order@.len() as nat);
                                assert(false);
                            }
                        }
                        assert(spec_rooted(unordered_bones@, missing, n as nat));
                        lemma_rooted_progress(unordered_bones@, placed@, missing, n as nat);
                        assert(false);
                    }
                }
                return Result::Err(crate::errors::LoadError::UnrootedBone);
            }
        }
        let mut bones: Vec<Bone> = Vec::new();
        let mut k: usize = 0;
        while k < n
            invariant
                n == unordered_bones@.len(),
                calc_order@.len() == n,
                order_map@.len() == n,
                placed@.len() == n,
                0 <= k <= n,
                bones@.len() == k,
                forall|kk: int|
                    0 <= kk < calc_order@.len() ==> (#[trigger] calc_order@[kk] as int) < n
                        && placed@[calc_order@[kk] as int] && order_map@[calc_order@[kk] as int]
                        as int == kk,
                forall|i: int|
                    0 <= i < n && #[trigger] placed@[i] ==> (order_map@[i] as int) < n
                        && calc_order@[order_map@[i] as int] as int == i,
                forall|kk: int|
                    0 <= kk < calc_order@.len() ==> ((#[trigger] unordered_bones@[calc_order@[kk]
                        as int].parent_index) matches Option::Some(p) ==> (p as int) < n
                        && placed@[p as int] && (order_map@[p as int] as int) < kk),
                forall|kk: int|
                    0 <= kk < k ==> {
                        let old_i = calc_order@[kk] as int;
                        &&& (#[trigger] bones@[kk]).name == unordered_bones@[old_i].name
                        &&& bones@[kk].poses@ == unordered_bones@[old_i].poses@
                        &&& (unordered_bones@[old_i].parent_index is None ==> bones@[kk].parent_index
                            is None)
                        &&& (unordered_bones@[old_i].parent_index matches Option::Some(p)
                            ==> bones@[kk].parent_index == Option::Some(order_map@[p as int])
                            && (order_map@[p as int] as int) < kk)
                    },
            decreases n - k,
        {
            let old_index = calc_order[k];
            let source = &unordered_bones[old_index];
            let new_parent: Option<BoneIndex> = match source.get_parent_index() {
                Option::None => Option::None,
                Option::Some(p) => Option::Some(order_map[p]),
            };
            let bone = Bone {
                parent_index: new_parent,
                poses: copy_poses(&source.poses),
                name: source.name.clone(),
            };
            bones.push(bone);
            k = k + 1;
        }
        let draw_order = copy_usizes(&order_map);
        let result = Animation { name, duration, is_looped, scale, bones, draw_order };
        proof {
            assert(forall|i: int|
                0 <= i < n ==> #[trigger] placed@[i]) by {
                assert forall|i: int| 0 <= i < n implies #[trigger] placed@[i] by {
                    if !placed@[i] {
                        assert(forall|kk: int|
                            0 <= kk < n ==> #[trigger] calc_order@[kk] as int != i);
                        let s = calc_order@.push(i as usize);
                        assert(forall|k1: int, k2: int|
                            0 <= k1 < k2 < s.len() ==> #[trigger] s[k1] != #[trigger] s[k2]) by {
                            assert(forall|k1: int, k2: int|
                                0 <= k1 < k2 < s.len() && s[k1] == s[k2] ==> k1 == k2);
                        }
                        assert(forall|kk: int| 0 <= kk < s.len() ==> (#[trigger] s[kk] as int) < n);
                        lemma_distinct_below_bound(s, n as nat);
                        assert(false);
                    }
                }
            }
            assert forall|i: int|
                0 <= i < result.bones@.len() implies (#[trigger] result.bones@[i]).wf()
                && (result.bones@[i].poses@.len() >= 2
                ==> result.bones@[i].poses@[result.bones@[i].poses@.len() - 1].moment
                < result.duration) by {
                let old_i = calc_order@[i] as int;
                assert(unordered_bones@[old_i].wf());
                assert(result.bones@[i].poses@ == unordered_bones@[old_i].poses@);
            }
            assert forall|k1: int, k2: int|
                0 <= k1 < k2 < result.draw_order@.len() implies #[trigger] result.draw_order@[k1]
                != #[trigger] result.draw_order@[k2] by {
                assert(placed@[k1]);
                assert(placed@[k2]);
                assert(calc_order@[order_map@[k1] as int] as int == k1);
                assert(calc_order@[order_map@[k2] as int] as int == k2);
            }
            assert forall|i: int|
                0 <= i < result.draw_order@.len() implies (#[trigger] result.draw_order@[i] as int)
                < result.bones@.len() by {
                assert(placed@[i]);
            }
            assert forall|i: int|
                0 <= i < result.bones@.len() implies (#[trigger] result.bones@[i].parent_index
                matches Option::Some(p) ==> (p as int) < i) by {
            }
            assert(result.wf());
            assert forall|i: int|
                0 <= i < unordered_bones@.len() implies {
                    let d = #[trigger] result.draw_order@[i] as int;
                    &&& result.bones@[d].name == unordered_bones@[i].name
                    &&& result.bones@[d].poses@ == unordered_bones@[i].poses@
                    &&& (unordered_bones@[i].parent_index is None
                        ==> result.bones@[d].parent_index is None)
                    &&& (unordered_bones@[i].parent_index matches Option::Some(p)
                        ==> (p as int) < unordered_bones@.len()
                        && result.bones@[d].parent_index == Option::Some(
                        result.draw_order@[p as int]))
                } by {
                assert(placed@[i]);
                let d = order_map@[i] as int;
                assert(calc_order@[d] as int == i);
                let po = unordered_bones@[i].parent_index;
                match po {
                    Option::Some(p) => {
                        assert(placed@[p as int]);
                    },
                    Option::None => {},
                }
            }
        }
        Result::Ok(result)
    }
}

/// The ghost form of an animation.
#[verifier::ext_equal]
pub struct AnimationV {
    pub name: Seq<char>,
    pub duration: i64,
    pub is_looped: bool,
    pub scale: i64,
    pub bones: Seq<BoneV>,
    pub draw_order: Seq<BoneIndex>,
}

impl View for Animation {
    type V = AnimationV;

    open spec fn view(&self) -> AnimationV {
        AnimationV {
            name: self.name@,
            duration: self.duration,
            is_looped: self.is_looped,
            scale: self.scale,
            bones: Seq::new(self.bones@.len(), |i: int| self.bones@[i]@),
            draw_order: self.draw_order@,
        }
    }
}

impl Animation {
    /// The animation's name.
    pub fn get_name(&self) -> (r: &str)
        ensures
            r@ == self.name@,
    {
        self.name.as_str()
    }

    /// The animation's duration.
    pub fn get_duration(&self) -> (r: i64)
        ensures
            r == self.duration,
    {
        self.duration
    }

    /// Whether the animation loops.
    pub fn is_looped(&self) -> (r: bool)
        ensures
            r == self.is_looped,
    {
        self.is_looped
    }

    /// The uniform scale, as a pair.
    pub fn get_scale(&self) -> (r: (i64, i64))
        ensures
            r.0 == self.scale,
            r.1 == self.scale,
    {
        (self.scale, self.scale)
    }

    /// The reciprocal of the uniform scale, as a pair.
    pub fn get_scale_reversed(&self) -> (r: (i64, i64))
        requires
            self.scale != 0,
        ensures
            r.0 as int == crate::fx::spec_fx_div(FX_ONE as int, self.scale as int),
            r.1 == r.0,
    {
        let s = fx_div(FX_ONE, self.scale);
        (s, s)
    }

    /// The number of bones, which is also the number of drawable layers.
    pub fn get_num_layers(&self) -> (r: usize)
        ensures
            r == self.bones@.len(),
    {
        self.bones.len()
    }

    /// The bones, in parent-before-child order.
    pub fn get_bones(&self) -> (r: &Vec<Bone>)
        ensures
            r == &self.bones,
    {
        &self.bones
    }

    /// The paint-order permutation.
    pub fn get_draw_order(&self) -> (r: &Vec<BoneIndex>)
        ensures
            r == &self.draw_order,
    {
        &self.draw_order
    }
}

/// The compiled output of one animation description document: its
/// animations by name, its image table, and its hover box.
#[derive(Debug)]
pub struct Skeleton {
    pub animations: Vec<(String, Animation)>,
    pub images: Vec<Image>,
    pub interaction: Interaction,
}

impl Skeleton {
    /// Pack a compiled document.
    pub fn new(animations: Vec<(String, Animation)>, images: Vec<Image>, interaction: Interaction) -> (r: Skeleton)
        ensures
            r.animations == animations,
            r.images == images,
            r.interaction == interaction,
    {
        Skeleton { animations, images, interaction }
    }
}

fn copy_usizes(v: &Vec<usize>) -> (r: Vec<usize>)
    ensures
        r@ == v@,
{
    let mut r: Vec<usize> = Vec::new();
    let mut i: usize = 0;
    while i < v.len()
        invariant
            0 <= i <= v@.len(),
            r@ =~= v@.subrange(0, i as int),
        decreases v@.len() - i,
    {
        r.push(v[i]);
        i = i + 1;
    }
    proof {
        assert(r@ =~= v@);
    }
    r
}

/// Law: a bone with a single pose returns that pose's transform and
/// image for any queried moment and duration, including moments outside
/// `[0, duration)`.
pub proof fn lemma_single_pose_any_moment(b: Bone, m1: int, d1: int, m2: int, d2: int)
    requires
        b.poses@.len() == 1,
    ensures
        spec_calc_state_at(b, m1, d1) == spec_calc_state_at(b, m2, d2),
{
}

/// Law: querying a multi-pose bone exactly at one of its keyframes'
/// moments returns that keyframe's transform, un-blended.
pub proof fn lemma_keyframe_unblended(b: Bone, k: int, duration: int)
    requires
        b.wf(),
        b.poses@.len() >= 2,
        0 <= k < b.poses@.len(),
        duration > b.poses@[b.poses@.len() - 1].moment,
        duration <= i64::MAX as int,
    ensures
        spec_calc_state_at(b, b.poses@[k].moment as int, duration).0 == spec_pose_transform(
            b.poses@[k].position_x as int,
            b.poses@[k].position_y as int,
            b.poses@[k].scale_x as int,
            b.poses@[k].scale_y as int,
            b.poses@[k].angle as int,
        ),
{
    let poses = b.poses@;
    let n = poses.len() as int;
    let t = poses[k].moment as int;
    assert(t <= poses[n - 1].moment);
    assert(t % duration == t) by {
        vstd::arithmetic::div_mod::lemma_small_mod(t as nat, duration as nat);
    }
    if k == n - 1 {
        let delta = spec_fx_sub(duration, t);
        assert(delta == duration - t);
        assert(fx_tdiv(delta * FX_ONE, delta) == FX_ONE) by {
            vstd::arithmetic::div_mod::lemma_div_multiples_vanish(FX_ONE as int, delta);
        }
        let w1 = spec_fx_div(spec_fx_sub(duration, t), spec_fx_sub(duration, t));
        assert(w1 == FX_ONE);
        lemma_blend_full_first(poses[k], poses[0], w1);
    } else {
        assert(t < poses[n - 1].moment);
        if k == 0 {
            assert(is_first_bracket(poses, t, 0));
            lemma_bracket_unique(poses, t, spec_bracket(poses, t), 0);
            let m2 = poses[1].moment as int;
            let delta = spec_fx_sub(m2, t);
            assert(delta == m2 - t);
            assert(fx_tdiv(delta * FX_ONE, delta) == FX_ONE) by {
                vstd::arithmetic::div_mod::lemma_div_multiples_vanish(FX_ONE as int, delta);
            }
            let w1 = spec_fx_div(spec_fx_sub(m2, t), spec_fx_sub(m2, poses[0].moment as int));
            assert(w1 == FX_ONE);
            lemma_blend_full_first(poses[0], poses[1], w1);
        } else {
            assert(is_first_bracket(poses, t, k - 1)) by {
                assert(forall|j: int|
                    0 <= j < k - 1 ==> t > #[trigger] poses[j + 1].moment) by {
                    assert(forall|j: int|
                        0 <= j < k - 1 ==> #[trigger] poses[j + 1].moment < poses[k].moment);
                }
            }
            lemma_bracket_unique(poses, t, spec_bracket(poses, t), k - 1);
            let m1 = poses[k - 1].moment as int;
            let m2 = poses[k].moment as int;
            assert(spec_fx_sub(m2, t) == 0);
            let delta = spec_fx_sub(m2, m1);
            assert(delta > 0);
            assert(0 * FX_ONE == 0);
            crate::fx::lemma_fx_tdiv_zero(delta);
            let w1 = spec_fx_div(spec_fx_sub(m2, t), delta);
            assert(w1 == 0);
            lemma_blend_full_second(poses[k - 1], poses[k], w1);
        }
    }
}

/// When the first weight is exactly one, blending returns the first
/// pose's fields.
proof fn lemma_blend_full_first(p1: Pose, p2: Pose, w1: int)
    requires
        w1 == FX_ONE,
    ensures
        spec_blend(w1, p1.position_x as int, spec_fx_sub(FX_ONE as int, w1), p2.position_x as int)
            == p1.position_x as int,
        spec_blend(w1, p1.position_y as int, spec_fx_sub(FX_ONE as int, w1), p2.position_y as int)
            == p1.position_y as int,
        spec_blend(w1, p1.scale_x as int, spec_fx_sub(FX_ONE as int, w1), p2.scale_x as int)
            == p1.scale_x as int,
        spec_blend(w1, p1.scale_y as int, spec_fx_sub(FX_ONE as int, w1), p2.scale_y as int)
            == p1.scale_y as int,
        spec_blend(w1, p1.angle as int, spec_fx_sub(FX_ONE as int, w1), p2.angle as int)
            == p1.angle as int,
{
    assert(spec_fx_sub(FX_ONE as int, w1) == 0);
    crate::fx::lemma_fx_mul_one(p1.position_x as int);
    crate::fx::lemma_fx_mul_one(p1.position_y as int);
    crate::fx::lemma_fx_mul_one(p1.scale_x as int);
    crate::fx::lemma_fx_mul_one(p1.scale_y as int);
    crate::fx::lemma_fx_mul_one(p1.angle as int);
    crate::fx::lemma_fx_mul_zero(p2.position_x as int);
    crate::fx::lemma_fx_mul_zero(p2.position_y as int);
    crate::fx::lemma_fx_mul_zero(p2.scale_x as int);
    crate::fx::lemma_fx_mul_zero(p2.scale_y as int);
    crate::fx::lemma_fx_mul_zero(p2.angle as int);
}

/// When the first weight is exactly zero, blending returns the second
/// pose's fields.
proof fn lemma_blend_full_second(p1: Pose, p2: Pose, w1: int)
    requires
        w1 == 0,
    ensures
        spec_blend(w1, p1.position_x as int, spec_fx_sub(FX_ONE as int, w1), p2.position_x as int)
            == p2.position_x as int,
        spec_blend(w1, p1.position_y as int, spec_fx_sub(FX_ONE as int, w1), p2.position_y as int)
            == p2.position_y as int,
        spec_blend(w1, p1.scale_x as int, spec_fx_sub(FX_ONE as int, w1), p2.scale_x as int)
            == p2.scale_x as int,
        spec_blend(w1, p1.scale_y as int, spec_fx_sub(FX_ONE as int, w1), p2.scale_y as int)
            == p2.scale_y as int,
        spec_blend(w1, p1.angle as int, spec_fx_sub(FX_ONE as int, w1), p2.angle as int)
            == p2.angle as int,
{
    assert(spec_fx_sub(FX_ONE as int, w1) == FX_ONE);
    crate::fx::lemma_fx_mul_one(p2.position_x as int);
    crate::fx::lemma_fx_mul_one(p2.position_y as int);
    crate::fx::lemma_fx_mul_one(p2.scale_x as int);
    crate::fx::lemma_fx_mul_one(p2.scale_y as int);
    crate::fx::lemma_fx_mul_one(p2.angle as int);
    crate::fx::lemma_fx_mul_zero(p1.position_x as int);
    crate::fx::lemma_fx_mul_zero(p1.position_y as int);
    crate::fx::lemma_fx_mul_zero(p1.scale_x as int);
    crate::fx::lemma_fx_mul_zero(p1.scale_y as int);
    crate::fx::lemma_fx_mul_zero(p1.angle as int);
}

} // verus!
