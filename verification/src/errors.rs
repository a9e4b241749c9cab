//! Errors raised while compiling an animation description document.
//!
//! All of these are fatal load-time conditions: no partial skeleton or
//! animation is produced when one is returned.

use vstd::prelude::*;

verus! {

/// Why compiling an animation description failed.
#[derive(Clone, Copy, Debug, PartialEq, Eq, Structural)]
pub enum LoadError {
    /// A bone refers to a parent id that the skeleton does not define.
    NotExistingBone,
    /// A pose refers to a source id that the document does not define.
    NotExistingSource,
    /// A muscle refers to a time key that the animation does not define.
    NotExistingPose,
    /// An animation refers to a skeleton id that the document does not
    /// define.
    NotExistingSkeleton,
    /// The bone parent links contain a cycle, so no parent-before-child
    /// order exists.
    UnrootedBone,
    /// A keyframe track is empty, not in ascending time order, or not
    /// contained in `[0, duration)`; or the animation's duration is not
    /// positive.
    MalformedTimeline,
    /// A skeleton's uniform scale is zero.
    MalformedSkeleton,
}

} // verus!
