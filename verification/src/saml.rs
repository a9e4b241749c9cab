//! Animation description compiler.
//!
//! A description document names image sources, skeletons (bones with a
//! default pose each) and animations (per-bone keyframe tracks over
//! named time keys).  The compiler resolves every name to an index,
//! merges default and keyframe pose data field by field, validates the
//! tracks, and reorders bones topologically.  Any unresolved reference
//! is a fatal load error: no partial result is produced.

use vstd::prelude::*;

use crate::errors::LoadError;
use crate::fx::{fx_from_wide, fx_mul, spec_fx_mul, FX_ONE, FX_TWO_PI};
use crate::names::str_eq;
use crate::skeleton::{Animation, Bone, Image, Interaction, Pose, Skeleton};

verus! {

/// A hover box, as the document gives it.
#[derive(Clone, Copy, Debug)]
pub struct SamlHoverArea {
    pub left: i64,
    pub right: i64,
    pub top: i64,
    pub bottom: i64,
}

/// The interaction section of a document.
#[derive(Clone, Copy, Debug)]
pub struct SamlInteraction {
    pub hover_area: SamlHoverArea,
}

/// One named image source: its pixel size and its pivot point.
#[derive(Clone, Debug)]
pub struct SamlSource {
    pub id: String,
    pub name: String,
    pub size_x: usize,
    pub size_y: usize,
    pub pivot_x: i64,
    pub pivot_y: i64,
}

/// A bone's default pose; unset fields fall back to zero offset, unit
/// scale, zero angle and no image.
#[derive(Clone, Debug)]
pub struct SamlBonePose {
    pub position_x: Option<i64>,
    pub position_y: Option<i64>,
    pub scale_x: Option<i64>,
    pub scale_y: Option<i64>,
    pub angle: Option<i64>,
    pub source_id: Option<String>,
}

/// One keyframe of a track: a time key name and the fields it overrides.
#[derive(Clone, Debug)]
pub struct SamlMusclePose {
    pub key: String,
    pub position_x: Option<i64>,
    pub position_y: Option<i64>,
    pub scale_x: Option<i64>,
    pub scale_y: Option<i64>,
    pub angle: Option<i64>,
    pub source_id: Option<String>,
}

/// One bone of a skeleton: its id, its parent's id, its default pose.
#[derive(Clone, Debug)]
pub struct SamlBone {
    pub id: String,
    pub parent: Option<String>,
    pub pose: SamlBonePose,
}

/// One keyframe track: the bone it drives and its timeline.
#[derive(Clone, Debug)]
pub struct SamlMuscle {
    pub bone_id: String,
    pub timeline: Vec<SamlMusclePose>,
}

/// One skeleton: its id, its uniform scale, and its bones in authoring
/// order.
#[derive(Clone, Debug)]
pub struct SamlSkeleton {
    pub id: String,
    pub scale: i64,
    pub bones: Vec<SamlBone>,
}

/// One animation: its id, its skeleton, its loop flag, its duration,
/// its named time keys, and its tracks.
#[derive(Clone, Debug)]
pub struct SamlAnimation {
    pub id: String,
    pub skeleton_id: String,
    pub is_looped: bool,
    pub length: i64,
    pub keys: Vec<(String, i64)>,
    pub muscles: Vec<SamlMuscle>,
}

/// A whole description document.
#[derive(Debug)]
pub struct SamlSpec {
    pub interaction: SamlInteraction,
    pub sources: Vec<SamlSource>,
    pub skeletons: Vec<SamlSkeleton>,
    pub animations: Vec<SamlAnimation>,
}

/// The index of the last source with an id, or a negative value; a
/// repeated id resolves to its last occurrence.
pub open spec fn spec_source_index(s: Seq<SamlSource>, id: Seq<char>) -> int
    decreases s.len(),
{
    if s.len() == 0 {
        -1
    } else if s.last().id@ == id {
        s.len() - 1
    } else {
        spec_source_index(s.drop_last(), id)
    }
}

/// The index of the last bone with an id, or a negative value.
pub open spec fn spec_bone_index(s: Seq<SamlBone>, id: Seq<char>) -> int
    decreases s.len(),
{
    if s.len() == 0 {
        -1
    } else if s.last().id@ == id {
        s.len() - 1
    } else {
        spec_bone_index(s.drop_last(), id)
    }
}

/// The moment of the last time key with a name, or nothing.
pub open spec fn spec_key_moment(s: Seq<(String, i64)>, key: Seq<char>) -> Option<i64>
    decreases s.len(),
{
    if s.len() == 0 {
        Option::None
    } else if s.last().0@ == key {
        Option::Some(s.last().1)
    } else {
        spec_key_moment(s.drop_last(), key)
    }
}

/// The index of the last skeleton with an id, or a negative value.
pub open spec fn spec_skeleton_index(s: Seq<SamlSkeleton>, id: Seq<char>) -> int
    decreases s.len(),
{
    if s.len() == 0 {
        -1
    } else if s.last().id@ == id {
        s.len() - 1
    } else {
        spec_skeleton_index(s.drop_last(), id)
    }
}

/// The index of the first track driving a bone, or a negative value.
pub open spec fn spec_muscle_index(s: Seq<SamlMuscle>, bone_id: Seq<char>, from: int) -> int
    decreases s.len() - from,
{
    if from < 0 || from >= s.len() {
        -1
    } else if s[from].bone_id@ == bone_id {
        from
    } else {
        spec_muscle_index(s, bone_id, from + 1)
    }
}

fn source_index_upto(sources: &Vec<SamlSource>, id: &str, n: usize) -> (r: Option<usize>)
    requires
        n <= sources@.len(),
    ensures
        r is None ==> spec_source_index(sources@.subrange(0, n as int), id@) < 0,
        r matches Some(i) ==> (i as int) == spec_source_index(
            sources@.subrange(0, n as int),
            id@,
        ) && (i as int) < n,
    decreases n,
{
    if n == 0 {
        Option::None
    } else {
        proof {
            assert(sources@.subrange(0, n as int).last() == sources@[n - 1]);
            assert(sources@.subrange(0, n as int).drop_last() =~= sources@.subrange(
                0,
                n as int - 1,
            ));
        }
        if str_eq(sources[n - 1].id.as_str(), id) {
            Option::Some(n - 1)
        } else {
            source_index_upto(sources, id, n - 1)
        }
    }
}

fn bone_index_upto(bones: &Vec<SamlBone>, id: &str, n: usize) -> (r: Option<usize>)
    requires
        n <= bones@.len(),
    ensures
        r is None ==> spec_bone_index(bones@.subrange(0, n as int), id@) < 0,
        r matches Some(i) ==> (i as int) == spec_bone_index(bones@.subrange(0, n as int), id@)
            && (i as int) < n,
    decreases n,
{
    if n == 0 {
        Option::None
    } else {
        proof {
            assert(bones@.subrange(0, n as int).last() == bones@[n - 1]);
            assert(bones@.subrange(0, n as int).drop_last() =~= bones@.subrange(0, n as int - 1));
        }
        if str_eq(bones[n - 1].id.as_str(), id) {
            Option::Some(n - 1)
        } else {
            bone_index_upto(bones, id, n - 1)
        }
    }
}

fn key_moment_upto(keys: &Vec<(String, i64)>, key: &str, n: usize) -> (r: Option<i64>)
    requires
        n <= keys@.len(),
    ensures
        r == spec_key_moment(keys@.subrange(0, n as int), key@),
    decreases n,
{
    if n == 0 {
        Option::None
    } else {
        proof {
            assert(keys@.subrange(0, n as int).last() == keys@[n - 1]);
            assert(keys@.subrange(0, n as int).drop_last() =~= keys@.subrange(0, n as int - 1));
        }
        if str_eq(keys[n - 1].0.as_str(), key) {
            Option::Some(keys[n - 1].1)
        } else {
            key_moment_upto(keys, key, n - 1)
        }
    }
}

fn skeleton_index_upto(skeletons: &Vec<SamlSkeleton>, id: &str, n: usize) -> (r: Option<usize>)
    requires
        n <= skeletons@.len(),
    ensures
        r is None ==> spec_skeleton_index(skeletons@.subrange(0, n as int), id@) < 0,
        r matches Some(i) ==> (i as int) == spec_skeleton_index(
            skeletons@.subrange(0, n as int),
            id@,
        ) && (i as int) < n,
    decreases n,
{
    if n == 0 {
        Option::None
    } else {
        proof {
            assert(skeletons@.subrange(0, n as int).last() == skeletons@[n - 1]);
            assert(skeletons@.subrange(0, n as int).drop_last() =~= skeletons@.subrange(
                0,
                n as int - 1,
            ));
        }
        if str_eq(skeletons[n - 1].id.as_str(), id) {
            Option::Some(n - 1)
        } else {
            skeleton_index_upto(skeletons, id, n - 1)
        }
    }
}

fn muscle_index_from(muscles: &Vec<SamlMuscle>, bone_id: &str, from: usize) -> (r: Option<usize>)
    ensures
        r is None ==> spec_muscle_index(muscles@, bone_id@, from as int) < 0,
        r matches Some(i) ==> (i as int) == spec_muscle_index(muscles@, bone_id@, from as int)
            && (i as int) < muscles@.len(),
    decreases muscles@.len() - from,
{
    if from >= muscles.len() {
        Option::None
    } else if str_eq(muscles[from].bone_id.as_str(), bone_id) {
        Option::Some(from)
    } else {
        muscle_index_from(muscles, bone_id, from + 1)
    }
}

/// An unset field of an option, or its value.
pub open spec fn spec_or_default(v: Option<i64>, dflt: int) -> int {
    match v {
        Option::Some(x) => x as int,
        Option::None => dflt,
    }
}

/// What compiling a bone's default pose returns: unset fields fall back
/// to zero offset, unit scale and zero angle; the angle is given in full
/// turns and becomes fixed-point radians; a named source must exist.
pub open spec fn spec_prepare_bone_pose(p: SamlBonePose, sources: Seq<SamlSource>) -> Result<
    Pose,
    LoadError,
> {
    let image = match p.source_id {
        Option::Some(id) => {
            if spec_source_index(sources, id@) < 0 {
                Option::None
            } else {
                Option::Some(Option::Some(spec_source_index(sources, id@) as usize))
            }
        },
        Option::None => Option::Some(Option::None),
    };
    match image {
        Option::None => Result::Err(LoadError::NotExistingSource),
        Option::Some(img) => Result::Ok(
            Pose {
                moment: 0,
                image_id: img,
                position_x: spec_or_default(p.position_x, 0) as i64,
                position_y: spec_or_default(p.position_y, 0) as i64,
                scale_x: spec_or_default(p.scale_x, FX_ONE as int) as i64,
                scale_y: spec_or_default(p.scale_y, FX_ONE as int) as i64,
                angle: spec_fx_mul(spec_or_default(p.angle, 0), FX_TWO_PI as int) as i64,
            },
        ),
    }
}

/// What compiling one keyframe returns: each unset field falls back to
/// the bone's default pose field, the key must name a moment, and a
/// named source must exist.
pub open spec fn spec_prepare_muscle_pose(
    bone_pose: SamlBonePose,
    muscle_pose: SamlMusclePose,
    keys: Seq<(String, i64)>,
    sources: Seq<SamlSource>,
) -> Result<Pose, LoadError> {
    match spec_key_moment(keys, muscle_pose.key@) {
        Option::None => Result::Err(LoadError::NotExistingPose),
        Option::Some(moment) => {
            let source_id = match muscle_pose.source_id {
                Option::Some(id) => Option::Some(id),
                Option::None => bone_pose.source_id,
            };
            let image = match source_id {
                Option::Some(id) => {
                    if spec_source_index(sources, id@) < 0 {
                        Option::None
                    } else {
                        Option::Some(Option::Some(spec_source_index(sources, id@) as usize))
                    }
                },
                Option::None => Option::Some(Option::None),
            };
            match image {
                Option::None => Result::Err(LoadError::NotExistingSource),
                Option::Some(img) => Result::Ok(
                    Pose {
                        moment,
                        image_id: img,
                        position_x: spec_or_default(
                            muscle_pose.position_x,
                            spec_or_default(bone_pose.position_x, 0),
                        ) as i64,
                        position_y: spec_or_default(
                            muscle_pose.position_y,
                            spec_or_default(bone_pose.position_y, 0),
                        ) as i64,
                        scale_x: spec_or_default(
                            muscle_pose.scale_x,
                            spec_or_default(bone_pose.scale_x, FX_ONE as int),
                        ) as i64,
                        scale_y: spec_or_default(
                            muscle_pose.scale_y,
                            spec_or_default(bone_pose.scale_y, FX_ONE as int),
                        ) as i64,
                        angle: spec_fx_mul(
                            spec_or_default(
                                muscle_pose.angle,
                                spec_or_default(bone_pose.angle, 0),
                            ),
                            FX_TWO_PI as int,
                        ) as i64,
                    },
                ),
            }
        },
    }
}

fn unwrap_or(v: &Option<i64>, dflt: i64) -> (r: i64)
    ensures
        r as int == spec_or_default(*v, dflt as int),
{
    match v {
        Option::Some(x) => *x,
        Option::None => dflt,
    }
}

/// What converting the first `n` keyframes of a track returns: the
/// converted poses in order, or the first conversion error.
pub open spec fn spec_prepare_poses_upto(
    bone_pose: SamlBonePose,
    timeline: Seq<SamlMusclePose>,
    keys: Seq<(String, i64)>,
    sources: Seq<SamlSource>,
    n: int,
) -> Result<Seq<Pose>, LoadError>
    decreases n,
{
    if n <= 0 {
        Result::Ok(Seq::empty())
    } else {
        match spec_prepare_poses_upto(bone_pose, timeline, keys, sources, n - 1) {
            Result::Err(e) => Result::Err(e),
            Result::Ok(s) => {
                if n - 1 < timeline.len() {
                    match spec_prepare_muscle_pose(bone_pose, timeline[n - 1], keys, sources) {
                        Result::Err(e) => Result::Err(e),
                        Result::Ok(p) => Result::Ok(s.push(p)),
                    }
                } else {
                    Result::Ok(s)
                }
            },
        }
    }
}

/// Once a prefix of a track fails to convert, the whole track fails
/// with the same error.
proof fn lemma_poses_err_persists(
    bone_pose: SamlBonePose,
    timeline: Seq<SamlMusclePose>,
    keys: Seq<(String, i64)>,
    sources: Seq<SamlSource>,
    n: int,
    m: int,
)
    requires
        0 <= n <= m,
        spec_prepare_poses_upto(bone_pose, timeline, keys, sources, n) is Err,
    ensures
        spec_prepare_poses_upto(bone_pose, timeline, keys, sources, m)
            == spec_prepare_poses_upto(bone_pose, timeline, keys, sources, n),
    decreases m - n,
{
    if n < m {
        lemma_poses_err_persists(bone_pose, timeline, keys, sources, n, m - 1);
    }
}

/// What a bone's compiled keyframe list is: its converted timeline if a
/// nonempty track drives it, else a single pose built from its default
/// pose.
pub open spec fn spec_bone_poses(
    bone_pose: SamlBonePose,
    muscle: Option<SamlMuscle>,
    keys: Seq<(String, i64)>,
    sources: Seq<SamlSource>,
) -> Result<Seq<Pose>, LoadError> {
    match muscle {
        Option::Some(m) => {
            if m.timeline@.len() > 0 {
                spec_prepare_poses_upto(bone_pose, m.timeline@, keys, sources, m.timeline@.len() as int)
            } else {
                match spec_prepare_bone_pose(bone_pose, sources) {
                    Result::Err(e) => Result::Err(e),
                    Result::Ok(p) => Result::Ok(seq![p]),
                }
            }
        },
        Option::None => {
            match spec_prepare_bone_pose(bone_pose, sources) {
                Result::Err(e) => Result::Err(e),
                Result::Ok(p) => Result::Ok(seq![p]),
            }
        },
    }
}

/// Whether a converted track is a valid keyframe list: nonnegative
/// moments, strictly ascending, all inside `[0, duration)`.
pub open spec fn spec_track_ok(poses: Seq<Pose>, duration: int) -> bool {
    &&& forall|i: int, j: int|
        0 <= i < j < poses.len() ==> #[trigger] poses[i].moment < #[trigger] poses[j].moment
    &&& forall|i: int| 0 <= i < poses.len() ==> #[trigger] poses[i].moment >= 0
    &&& forall|i: int| 0 <= i < poses.len() ==> #[trigger] poses[i].moment < duration
}

/// Whether the parent chain of document bone `i` reaches a root within
/// `fuel` steps, resolving parent ids through the bone list.
pub open spec fn spec_doc_rooted(bones: Seq<SamlBone>, i: int, fuel: nat) -> bool
    decreases fuel,
{
    if !(0 <= i < bones.len()) {
        false
    } else {
        match bones[i].parent {
            Option::None => true,
            Option::Some(pid) => {
                let p = spec_bone_index(bones, pid@);
                &&& p >= 0
                &&& fuel > 0
                &&& spec_doc_rooted(bones, p, (fuel - 1) as nat)
            },
        }
    }
}

/// Whether every document bone's parent chain reaches a root.
pub open spec fn spec_doc_forest(bones: Seq<SamlBone>) -> bool {
    forall|i: int| 0 <= i < bones.len() ==> spec_doc_rooted(bones, i, bones.len() as nat)
}

/// Whether one document bone compiles: its parent resolves, its track
/// converts, and the converted track is valid for the duration.
pub open spec fn spec_doc_bone_ok(
    bones: Seq<SamlBone>,
    i: int,
    muscles: Seq<SamlMuscle>,
    keys: Seq<(String, i64)>,
    sources: Seq<SamlSource>,
    duration: int,
) -> bool {
    let b = bones[i];
    let mi = spec_muscle_index(muscles, b.id@, 0);
    let muscle = if mi >= 0 {
        Option::Some(muscles[mi])
    } else {
        Option::<SamlMuscle>::None
    };
    &&& (b.parent matches Option::Some(pid) ==> spec_bone_index(bones, pid@) >= 0)
    &&& (spec_bone_poses(b.pose, muscle, keys, sources) matches Result::Ok(ps)
        && spec_track_ok(ps, duration))
}

/// Whether one animation of a document compiles: its skeleton id
/// resolves, its duration is positive, the skeleton's scale is nonzero,
/// every bone compiles, and the parent links form a forest.
pub open spec fn spec_animation_compiles(
    skeletons: Seq<SamlSkeleton>,
    sources: Seq<SamlSource>,
    a: SamlAnimation,
) -> bool {
    let si = spec_skeleton_index(skeletons, a.skeleton_id@);
    &&& si >= 0
    &&& a.length > 0
    &&& skeletons[si].scale != 0
    &&& (forall|i: int|
        0 <= i < skeletons[si].bones@.len() ==> spec_doc_bone_ok(
            skeletons[si].bones@,
            i,
            a.muscles@,
            a.keys@,
            sources,
            a.length as int,
        ))
    &&& spec_doc_forest(skeletons[si].bones@)
}

/// Document-level rootedness carries over to compiled bones whose
/// parent indices resolve the same links.
proof fn lemma_doc_rooted_to_bones(
    doc: Seq<SamlBone>,
    bones: Seq<Bone>,
    i: int,
    fuel: nat,
)
    requires
        bones.len() == doc.len(),
        doc.len() <= usize::MAX as int,
        forall|k: int|
            0 <= k < doc.len() ==> (#[trigger] bones[k].parent_index) == (match doc[k].parent {
                Option::None => Option::<usize>::None,
                Option::Some(pid) => if spec_bone_index(doc, pid@) >= 0 {
                    Option::Some(spec_bone_index(doc, pid@) as usize)
                } else {
                    Option::None
                },
            }),
        forall|k: int|
            0 <= k < doc.len() ==> ((#[trigger] doc[k].parent) matches Option::Some(pid)
                ==> spec_bone_index(doc, pid@) >= 0),
        spec_doc_rooted(doc, i, fuel),
    ensures
        crate::skeleton::spec_rooted(bones, i, fuel),
    decreases fuel,
{
    let po = doc[i].parent;
    match po {
        Option::None => {
            assert(doc[i].parent is None);
            assert(bones[i].parent_index == Option::<usize>::None);
            assert(crate::skeleton::spec_rooted(bones, i, fuel)) by {
                assert(0 <= i < bones.len());
            }
        },
        Option::Some(pid) => {
            let p = spec_bone_index(doc, pid@);
            assert(p >= 0);
            lemma_bone_index_in_range(doc, pid@);
            assert(p < doc.len());
            assert((p as usize) as int == p);
            assert(bones[i].parent_index == Option::Some(p as usize));
            lemma_doc_rooted_to_bones(doc, bones, p, (fuel - 1) as nat);
        },
    }
}

/// A resolved bone index lies inside the bone list.
proof fn lemma_bone_index_in_range(s: Seq<SamlBone>, id: Seq<char>)
    ensures
        spec_bone_index(s, id) < s.len(),
        spec_bone_index(s, id) >= -1,
    decreases s.len(),
{
    if s.len() > 0 && !(s.last().id@ == id) {
        lemma_bone_index_in_range(s.drop_last(), id);
    }
}

/// The compiler: a parsed description document, compiled on demand.
#[derive(Debug)]
pub struct Parser {
    pub interaction: SamlInteraction,
    pub sources: Vec<SamlSource>,
    pub skeletons: Vec<SamlSkeleton>,
    pub animations: Vec<SamlAnimation>,
}

impl Parser {
    /// Wrap a parsed document.
    pub fn new(doc: SamlSpec) -> (r: Parser)
        ensures
            r.interaction == doc.interaction,
            r.sources == doc.sources,
            r.skeletons == doc.skeletons,
            r.animations == doc.animations,
    {
        Parser {
            interaction: doc.interaction,
            sources: doc.sources,
            skeletons: doc.skeletons,
            animations: doc.animations,
        }
    }

    /// The file names of the image sources, in document order.
    pub fn get_sources(&self) -> (r: Vec<String>)
        ensures
            r@.len() == self.sources@.len(),
            forall|i: int|
                0 <= i < r@.len() ==> (#[trigger] r@[i])@ == self.sources@[i].name@,
    {
        let mut r: Vec<String> = Vec::new();
        let mut i: usize = 0;
        while i < self.sources.len()
            invariant
                0 <= i <= self.sources@.len(),
                r@.len() == i,
                forall|j: int| 0 <= j < i ==> (#[trigger] r@[j])@ == self.sources@[j].name@,
            decreases self.sources@.len() - i,
        {
            r.push(self.sources[i].name.clone());
            i = i + 1;
        }
        r
    }

    /// The hover box of the document.
    fn prepare_interaction(&self) -> (r: Interaction)
        ensures
            r.left == self.interaction.hover_area.left,
            r.right == self.interaction.hover_area.right,
            r.top == self.interaction.hover_area.top,
            r.bottom == self.interaction.hover_area.bottom,
    {
        Interaction::new(
            self.interaction.hover_area.left,
            self.interaction.hover_area.right,
            self.interaction.hover_area.top,
            self.interaction.hover_area.bottom,
        )
    }

    /// The image metadata of one source: the pivot as given, the pixel
    /// size in fixed point.
    fn prepare_image(source: &SamlSource) -> (r: Image)
        ensures
            r.pivot_x == source.pivot_x,
            r.pivot_y == source.pivot_y,
            r.size_x as int == crate::fx::fx_sat((source.size_x as int) * (FX_ONE as int)),
            r.size_y as int == crate::fx::fx_sat((source.size_y as int) * (FX_ONE as int)),
    {
        let sx = fx_from_wide((source.size_x as i128) * (FX_ONE as i128));
        let sy = fx_from_wide((source.size_y as i128) * (FX_ONE as i128));
        Image::new((source.pivot_x, source.pivot_y), (sx, sy))
    }

    fn prepare_bone_pose(pose: &SamlBonePose, sources: &Vec<SamlSource>) -> (r: Result<
        Pose,
        LoadError,
    >)
        ensures
            r == spec_prepare_bone_pose(*pose, sources@),
    {
        let image_id: Option<usize> = match &pose.source_id {
            Option::Some(id) => {
                match source_index_upto(sources, id.as_str(), sources.len()) {
                    Option::Some(i) => {
                        proof {
                            assert(sources@.subrange(0, sources@.len() as int) =~= sources@);
                        }
                        Option::Some(i)
                    },
                    Option::None => {
                        proof {
                            assert(sources@.subrange(0, sources@.len() as int) =~= sources@);
                        }
                        return Result::Err(LoadError::NotExistingSource);
                    },
                }
            },
            Option::None => Option::None,
        };
        let position = (unwrap_or(&pose.position_x, 0), unwrap_or(&pose.position_y, 0));
        let scale = (unwrap_or(&pose.scale_x, FX_ONE), unwrap_or(&pose.scale_y, FX_ONE));
        let angle = fx_mul(unwrap_or(&pose.angle, 0), FX_TWO_PI);
        Result::Ok(Pose::new(0, image_id, position, scale, angle))
    }

    fn prepare_muscle_pose(
        bone_pose: &SamlBonePose,
        muscle_pose: &SamlMusclePose,
        keys: &Vec<(String, i64)>,
        sources: &Vec<SamlSource>,
    ) -> (r: Result<Pose, LoadError>)
        ensures
            r == spec_prepare_muscle_pose(*bone_pose, *muscle_pose, keys@, sources@),
    {
        proof {
            assert(keys@.subrange(0, keys@.len() as int) =~= keys@);
            assert(sources@.subrange(0, sources@.len() as int) =~= sources@);
        }
        let moment = match key_moment_upto(keys, muscle_pose.key.as_str(), keys.len()) {
            Option::Some(m) => m,
            Option::None => {
                return Result::Err(LoadError::NotExistingPose);
            },
        };
        let source_id: &Option<String> = match &muscle_pose.source_id {
            Option::Some(_) => &muscle_pose.source_id,
            Option::None => &bone_pose.source_id,
        };
        let image_id: Option<usize> = match source_id {
            Option::Some(id) => {
                match source_index_upto(sources, id.as_str(), sources.len()) {
                    Option::Some(i) => Option::Some(i),
                    Option::None => {
                        return Result::Err(LoadError::NotExistingSource);
                    },
                }
            },
            Option::None => Option::None,
        };
        let px = unwrap_or(&muscle_pose.position_x, unwrap_or(&bone_pose.position_x, 0));
        let py = unwrap_or(&muscle_pose.position_y, unwrap_or(&bone_pose.position_y, 0));
        let sx = unwrap_or(&muscle_pose.scale_x, unwrap_or(&bone_pose.scale_x, FX_ONE));
        let sy = unwrap_or(&muscle_pose.scale_y, unwrap_or(&bone_pose.scale_y, FX_ONE));
        let angle = fx_mul(unwrap_or(&muscle_pose.angle, unwrap_or(&bone_pose.angle, 0)), FX_TWO_PI);
        Result::Ok(Pose::new(moment, image_id, (px, py), (sx, sy), angle))
    }

    /// Compile one bone: resolve its parent, convert its track (or its
    /// default pose), and validate the track against the duration.
    #[verifier::loop_isolation(false)]
    fn prepare_bone(
        bone: &SamlBone,
        muscle: Option<&SamlMuscle>,
        keys: &Vec<(String, i64)>,
        sources: &Vec<SamlSource>,
        bones: &Vec<SamlBone>,
        duration: i64,
    ) -> (r: Result<Bone, LoadError>)
        ensures
            bone.parent matches Option::Some(pid) && spec_bone_index(bones@, pid@) < 0 ==> r
                == Result::<Bone, LoadError>::Err(LoadError::NotExistingBone),
            (bone.parent is None || (bone.parent matches Option::Some(pid) && spec_bone_index(
                bones@,
                pid@,
            ) >= 0)) ==> ({
                let ps = spec_bone_poses(
                    bone.pose,
                    match muscle {
                        Option::Some(m) => Option::Some(*m),
                        Option::None => Option::None,
                    },
                    keys@,
                    sources@,
                );
                &&& (ps matches Result::Err(e) ==> r == Result::<Bone, LoadError>::Err(e))
                &&& (ps matches Result::Ok(pp) && !spec_track_ok(pp, duration as int) ==> r
                    == Result::<Bone, LoadError>::Err(LoadError::MalformedTimeline))
                &&& (ps matches Result::Ok(pp) && spec_track_ok(pp, duration as int) ==> (
                r matches Result::Ok(b) && b.name@ == bone.id@ && b.poses@ == (match ps {
                    Result::Ok(q) => q,
                    Result::Err(_) => Seq::empty(),
                }) && b.wf() && (
                b.poses@.len() >= 2 ==> b.poses@[b.poses@.len() - 1].moment < duration)
                    && b.parent_index == (match bone.parent {
                    Option::None => Option::<usize>::None,
                    Option::Some(pid) => Option::Some(spec_bone_index(bones@, pid@) as usize),
                })))
            }),
    {
        proof {
            assert(bones@.subrange(0, bones@.len() as int) =~= bones@);
        }
        let ghost muscle_spec: Option<SamlMuscle> = match muscle {
            Option::Some(m) => Option::Some(*m),
            Option::None => Option::None,
        };
        let parent_index: Option<usize> = match &bone.parent {
            Option::Some(pid) => {
                match bone_index_upto(bones, pid.as_str(), bones.len()) {
                    Option::Some(p) => Option::Some(p),
                    Option::None => {
                        return Result::Err(LoadError::NotExistingBone);
                    },
                }
            },
            Option::None => Option::None,
        };
        proof {
            assert(bone.parent matches Option::Some(pid) ==> spec_bone_index(bones@, pid@) >= 0
                && parent_index == Option::Some(spec_bone_index(bones@, pid@) as usize));
            assert(bone.parent is None ==> parent_index is None);
        }
        let mut poses: Vec<Pose> = Vec::new();
        let mut used_timeline = false;
        match muscle {
            Option::Some(m) => {
                if m.timeline.len() > 0 {
                    used_timeline = true;
                    let n = m.timeline.len();
                    let mut i: usize = 0;
                    while i < n
                        invariant
                            n == m.timeline@.len(),
                            0 <= i <= n,
                            spec_prepare_poses_upto(bone.pose, m.timeline@, keys@, sources@, i as int)
                                == Result::<Seq<Pose>, LoadError>::Ok(poses@),
                        decreases n - i,
                    {
                        match Parser::prepare_muscle_pose(&bone.pose, &m.timeline[i], keys, sources) {
                            Result::Ok(p) => {
                                poses.push(p);
                            },
                            Result::Err(e) => {
                                proof {
                                    lemma_poses_err_persists(
                                        bone.pose,
                                        m.timeline@,
                                        keys@,
                                        sources@,
                                        i as int + 1,
                                        n as int,
                                    );
                                }
                                return Result::Err(e);
                            },
                        }
                        i = i + 1;
                    }
                    proof {
                        assert(poses@.len() >= 1);
                        assert(spec_bone_poses(bone.pose, muscle_spec, keys@, sources@)
                            == Result::<Seq<Pose>, LoadError>::Ok(poses@));
                    }
                }
            },
            Option::None => {},
        }
        proof {
            assert(used_timeline == (muscle_spec matches Option::Some(m) && m.timeline@.len()
                > 0));
        }
        if !used_timeline {
            match Parser::prepare_bone_pose(&bone.pose, sources) {
                Result::Ok(p) => {
                    poses.push(p);
                    proof {
                        assert(poses@ =~= seq![p]);
                        assert(spec_bone_poses(bone.pose, muscle_spec, keys@, sources@)
                            == Result::<Seq<Pose>, LoadError>::Ok(poses@));
                    }
                },
                Result::Err(e) => {
                    return Result::Err(e);
                },
            }
        }
        proof {
            assert(spec_bone_poses(bone.pose, muscle_spec, keys@, sources@)
                == Result::<Seq<Pose>, LoadError>::Ok(poses@));
            assert(poses@.len() >= 1);
        }
        let mut v: usize = 0;
        while v < poses.len()
            invariant
                0 <= v <= poses@.len(),
                forall|i: int, j: int|
                    0 <= i < j < v ==> #[trigger] poses@[i].moment < #[trigger] poses@[j].moment,
                forall|i: int| 0 <= i < v ==> #[trigger] poses@[i].moment >= 0,
                forall|i: int| 0 <= i < v ==> #[trigger] poses@[i].moment < duration,
                v > 0 ==> forall|i: int|
                    0 <= i < v - 1 ==> #[trigger] poses@[i].moment < poses@[v - 1].moment,
            decreases poses@.len() - v,
        {
            let p = &poses[v];
            if p.moment < 0 || p.moment >= duration {
                return Result::Err(LoadError::MalformedTimeline);
            }
            if v > 0 && poses[v - 1].moment >= p.moment {
                return Result::Err(LoadError::MalformedTimeline);
            }
            proof {
                assert forall|i: int| 0 <= i < v implies #[trigger] poses@[i].moment
                    < poses@[v as int].moment by {
                    if i < v - 1 {
                        assert(poses@[i].moment < poses@[v - 1].moment);
                    }
                }
            }
            v = v + 1;
        }
        let name = bone.id.clone();
        let result = Bone { parent_index, poses, name };
        Result::Ok(result)
    }

    /// Compile one animation: resolve its skeleton, compile every bone,
    /// and reorder the bones topologically.
    #[verifier::loop_isolation(false)]
    pub fn prepare_animation(&self, animation: &SamlAnimation) -> (r: Result<
        Animation,
        LoadError,
    >)
        ensures
            spec_skeleton_index(self.skeletons@, animation.skeleton_id@) < 0 ==> r
                == Result::<Animation, LoadError>::Err(LoadError::NotExistingSkeleton),
            spec_animation_compiles(self.skeletons@, self.sources@, *animation) ==> r is Ok,
            r matches Ok(a) ==> ({
                let si = spec_skeleton_index(self.skeletons@, animation.skeleton_id@);
                let sk = self.skeletons@[si];
                &&& si >= 0
                &&& a.wf()
                &&& a.name@ == animation.id@
                &&& a.duration == animation.length
                &&& a.is_looped == animation.is_looped
                &&& a.scale == sk.scale
                &&& a.bones@.len() == sk.bones@.len()
                &&& a.draw_order@.len() == sk.bones@.len()
                &&& forall|i: int|
                    0 <= i < sk.bones@.len() ==> {
                        let d = #[trigger] a.draw_order@[i] as int;
                        let mi = spec_muscle_index(animation.muscles@, sk.bones@[i].id@, 0);
                        let muscle = if mi >= 0 {
                            Option::Some(animation.muscles@[mi])
                        } else {
                            Option::<SamlMuscle>::None
                        };
                        &&& a.bones@[d].name@ == sk.bones@[i].id@
                        &&& spec_bone_poses(sk.bones@[i].pose, muscle, animation.keys@, self.sources@)
                            == Result::<Seq<Pose>, LoadError>::Ok(a.bones@[d].poses@)
                        &&& (sk.bones@[i].parent is None ==> a.bones@[d].parent_index is None)
                        &&& (sk.bones@[i].parent matches Option::Some(pid)
                            ==> spec_bone_index(sk.bones@, pid@) >= 0 && a.bones@[d].parent_index
                            == Option::Some(a.draw_order@[spec_bone_index(sk.bones@, pid@)]))
                    }
            }),
    {
        let si = match skeleton_index_upto(
            &self.skeletons,
            animation.skeleton_id.as_str(),
            self.skeletons.len(),
        ) {
            Option::Some(i) => i,
            Option::None => {
                proof {
                    assert(self.skeletons@.subrange(0, self.skeletons@.len() as int)
                        =~= self.skeletons@);
                }
                return Result::Err(LoadError::NotExistingSkeleton);
            },
        };
        proof {
            assert(self.skeletons@.subrange(0, self.skeletons@.len() as int) =~= self.skeletons@);
        }
        let skeleton = &self.skeletons[si];
        if animation.length <= 0 {
            return Result::Err(LoadError::MalformedTimeline);
        }
        if skeleton.scale == 0 {
            return Result::Err(LoadError::MalformedSkeleton);
        }
        let n = skeleton.bones.len();
        let mut unordered: Vec<Bone> = Vec::new();
        let mut i: usize = 0;
        while i < n
            invariant
                0 <= i <= n,
                unordered@.len() == i,
                forall|k: int|
                    0 <= k < i ==> {
                        let mi = spec_muscle_index(
                            animation.muscles@,
                            skeleton.bones@[k].id@,
                            0,
                        );
                        let muscle = if mi >= 0 {
                            Option::Some(animation.muscles@[mi])
                        } else {
                            Option::<SamlMuscle>::None
                        };
                        &&& (#[trigger] unordered@[k]).name@ == skeleton.bones@[k].id@
                        &&& spec_bone_poses(
                            skeleton.bones@[k].pose,
                            muscle,
                            animation.keys@,
                            self.sources@,
                        ) == Result::<Seq<Pose>, LoadError>::Ok(unordered@[k].poses@)
                        &&& unordered@[k].wf()
                        &&& (unordered@[k].poses@.len() >= 2 ==> unordered@[k].poses@[
                        unordered@[k].poses@.len() - 1].moment < animation.length)
                        &&& (skeleton.bones@[k].parent is None ==> unordered@[k].parent_index
                            is None)
                        &&& (skeleton.bones@[k].parent matches Option::Some(pid)
                            ==> spec_bone_index(skeleton.bones@, pid@) >= 0
                            && unordered@[k].parent_index == Option::Some(
                            spec_bone_index(skeleton.bones@, pid@) as usize,
                        ))
                    },
            decreases n - i,
        {
            let bone = &skeleton.bones[i];
            let muscle = match muscle_index_from(&animation.muscles, bone.id.as_str(), 0) {
                Option::Some(mi) => Option::Some(&animation.muscles[mi]),
                Option::None => Option::None,
            };
            match Parser::prepare_bone(
                bone,
                muscle,
                &animation.keys,
                &self.sources,
                &skeleton.bones,
                animation.length,
            ) {
                Result::Ok(b) => {
                    unordered.push(b);
                },
                Result::Err(e) => {
                    proof {
                        assert(!spec_doc_bone_ok(
                            skeleton.bones@,
                            i as int,
                            animation.muscles@,
                            animation.keys@,
                            self.sources@,
                            animation.length as int,
                        ));
                    }
                    return Result::Err(e);
                },
            }
            i = i + 1;
        }
        let ghost un = unordered@;
        match Animation::new(
            animation.id.clone(),
            animation.length,
            animation.is_looped,
            skeleton.scale,
            unordered,
        ) {
            Result::Ok(a) => {
                proof {
                    assert forall|i2: int| 0 <= i2 < skeleton.bones@.len() implies {
                        let d = #[trigger] a.draw_order@[i2] as int;
                        let mi = spec_muscle_index(animation.muscles@, skeleton.bones@[i2].id@, 0);
                        let muscle = if mi >= 0 {
                            Option::Some(animation.muscles@[mi])
                        } else {
                            Option::<SamlMuscle>::None
                        };
                        &&& a.bones@[d].name@ == skeleton.bones@[i2].id@
                        &&& spec_bone_poses(
                            skeleton.bones@[i2].pose,
                            muscle,
                            animation.keys@,
                            self.sources@,
                        ) == Result::<Seq<Pose>, LoadError>::Ok(a.bones@[d].poses@)
                        &&& (skeleton.bones@[i2].parent is None ==> a.bones@[d].parent_index
                            is None)
                        &&& (skeleton.bones@[i2].parent matches Option::Some(pid)
                            ==> spec_bone_index(skeleton.bones@, pid@) >= 0
                            && a.bones@[d].parent_index == Option::Some(
                            a.draw_order@[spec_bone_index(skeleton.bones@, pid@)],
                        ))
                    } by {
                        let d = a.draw_order@[i2] as int;
                        assert(a.bones@[d].name == un[i2].name);
                        assert(a.bones@[d].poses@ == un[i2].poses@);
                        assert(un[i2].name@ == skeleton.bones@[i2].id@);
                        let po = skeleton.bones@[i2].parent;
                        match po {
                            Option::Some(pid) => {
                                assert(spec_bone_index(skeleton.bones@, pid@) >= 0);
                                lemma_bone_index_in_range(skeleton.bones@, pid@);
                                assert(un[i2].parent_index == Option::Some(
                                    spec_bone_index(skeleton.bones@, pid@) as usize,
                                ));
                                assert(a.bones@[d].parent_index == Option::Some(
                                    a.draw_order@[spec_bone_index(skeleton.bones@, pid@)],
                                ));
                            },
                            Option::None => {
                                assert(un[i2].parent_index is None);
                            },
                        }
                    }
                }
                Result::Ok(a)
            },
            Result::Err(e) => {
                proof {
                    let doc = skeleton.bones@;
                    if spec_doc_forest(doc) && (forall|i2: int|
                        0 <= i2 < doc.len() ==> spec_doc_bone_ok(
                            doc,
                            i2,
                            animation.muscles@,
                            animation.keys@,
                            self.sources@,
                            animation.length as int,
                        )) {
                        assert forall|k: int|
                            0 <= k < doc.len() implies (#[trigger] un[k].parent_index) == (
                        match doc[k].parent {
                            Option::None => Option::<usize>::None,
                            Option::Some(pid) => if spec_bone_index(doc, pid@) >= 0 {
                                Option::Some(spec_bone_index(doc, pid@) as usize)
                            } else {
                                Option::None
                            },
                        }) by {
                            assert(spec_doc_bone_ok(
                                doc,
                                k,
                                animation.muscles@,
                                animation.keys@,
                                self.sources@,
                                animation.length as int,
                            ));
                        }
                        assert forall|k: int|
                            0 <= k < doc.len() implies ((#[trigger] doc[k].parent)
                            matches Option::Some(pid) ==> spec_bone_index(doc, pid@) >= 0) by {
                            assert(spec_doc_bone_ok(
                                doc,
                                k,
                                animation.muscles@,
                                animation.keys@,
                                self.sources@,
                                animation.length as int,
                            ));
                        }
                        assert forall|k: int|
                            0 <= k < doc.len() implies crate::skeleton::spec_rooted(
                            un,
                            k,
                            doc.len() as nat,
                        ) by {
                            assert(spec_doc_rooted(doc, k, doc.len() as nat));
                            lemma_doc_rooted_to_bones(doc, un, k, doc.len() as nat);
                        }
                        assert(crate::skeleton::spec_is_forest(un));
                        assert(false);
                    }
                }
                Result::Err(e)
            },
        }
    }

    /// Compile the whole document: its image table, its hover box, and
    /// every animation keyed by its id.  Fails fast on the first
    /// unresolved reference or malformed track.
    #[verifier::loop_isolation(false)]
    #[verifier::rlimit(60)]
    pub fn to_skeleton(&self) -> (r: Result<Skeleton, LoadError>)
        ensures
            (forall|j: int|
                0 <= j < self.animations@.len() ==> spec_animation_compiles(
                    self.skeletons@,
                    self.sources@,
                    #[trigger] self.animations@[j],
                )) ==> r is Ok,
            r matches Ok(sk) ==> ({
                &&& sk.interaction.left == self.interaction.hover_area.left
                &&& sk.interaction.right == self.interaction.hover_area.right
                &&& sk.interaction.top == self.interaction.hover_area.top
                &&& sk.interaction.bottom == self.interaction.hover_area.bottom
                &&& sk.images@.len() == self.sources@.len()
                &&& forall|i: int|
                    0 <= i < self.sources@.len() ==> (#[trigger] sk.images@[i]).pivot_x
                        == self.sources@[i].pivot_x && sk.images@[i].pivot_y
                        == self.sources@[i].pivot_y && sk.images@[i].size_x as int
                        == crate::fx::fx_sat((self.sources@[i].size_x as int) * (FX_ONE as int))
                        && sk.images@[i].size_y as int == crate::fx::fx_sat(
                        (self.sources@[i].size_y as int) * (FX_ONE as int),
                    )
                &&& sk.animations@.len() == self.animations@.len()
                &&& forall|j: int|
                    0 <= j < self.animations@.len() ==> (#[trigger] sk.animations@[j].0)@
                        == self.animations@[j].id@ && sk.animations@[j].1.wf()
                        && sk.animations@[j].1.name@ == self.animations@[j].id@
                        && sk.animations@[j].1.duration == self.animations@[j].length
                        && sk.animations@[j].1.is_looped == self.animations@[j].is_looped
            }),
    {
        let interaction = self.prepare_interaction();
        let mut images: Vec<Image> = Vec::new();
        let mut i: usize = 0;
        while i < self.sources.len()
            invariant
                0 <= i <= self.sources@.len(),
                images@.len() == i,
                forall|k: int|
                    0 <= k < i ==> (#[trigger] images@[k]).pivot_x == self.sources@[k].pivot_x
                        && images@[k].pivot_y == self.sources@[k].pivot_y && images@[k].size_x
                        as int == crate::fx::fx_sat(
                        (self.sources@[k].size_x as int) * (FX_ONE as int),
                    ) && images@[k].size_y as int == crate::fx::fx_sat(
                        (self.sources@[k].size_y as int) * (FX_ONE as int),
                    ),
            decreases self.sources@.len() - i,
        {
            images.push(Parser::prepare_image(&self.sources[i]));
            i = i + 1;
        }
        let mut animations: Vec<(String, Animation)> = Vec::new();
        let mut j: usize = 0;
        while j < self.animations.len()
            invariant
                0 <= j <= self.animations@.len(),
                animations@.len() == j,
                forall|k: int|
                    0 <= k < j ==> (#[trigger] animations@[k].0)@ == self.animations@[k].id@
                        && animations@[k].1.wf() && animations@[k].1.name@
                        == self.animations@[k].id@ && animations@[k].1.duration
                        == self.animations@[k].length && animations@[k].1.is_looped
                        == self.animations@[k].is_looped,
            decreases self.animations@.len() - j,
        {
            let animation = &self.animations[j];
            match self.prepare_animation(animation) {
                Result::Ok(a) => {
                    proof {
                        assert(a.wf() && a.name@ == animation.id@ && a.duration
                            == animation.length && a.is_looped == animation.is_looped);
                    }
                    animations.push((animation.id.clone(), a));
                },
                Result::Err(e) => {
                    proof {
                        assert(!spec_animation_compiles(
                            self.skeletons@,
                            self.sources@,
                            self.animations@[j as int],
                        ));
                    }
                    return Result::Err(e);
                },
            }
            j = j + 1;
        }
        Result::Ok(Skeleton::new(animations, images, interaction))
    }
}

} // verus!
