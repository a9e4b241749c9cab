//! The immutable table of compiled animations shared by the sprites of
//! one skin: animations by name, a (variant, action) selection table,
//! and the image metadata table.

use vstd::prelude::*;

use crate::names::string_eq_str;
use crate::skeleton::{Animation, Image};

verus! {

/// Whether a name occurs among the animation keys.
pub open spec fn has_animation_key(s: Seq<(String, Animation)>, name: Seq<char>) -> bool {
    exists|i: int| 0 <= i < s.len() && (#[trigger] s[i].0)@ == name
}

/// The index of a name among the animation keys.
pub open spec fn animation_key_index(s: Seq<(String, Animation)>, name: Seq<char>) -> int {
    choose|i: int| 0 <= i < s.len() && (#[trigger] s[i].0)@ == name
}

/// Whether a name occurs among the variant keys.
pub open spec fn has_variant_key(
    s: Seq<(String, Vec<(String, String)>)>,
    name: Seq<char>,
) -> bool {
    exists|i: int| 0 <= i < s.len() && (#[trigger] s[i].0)@ == name
}

/// The index of a name among the variant keys.
pub open spec fn variant_key_index(
    s: Seq<(String, Vec<(String, String)>)>,
    name: Seq<char>,
) -> int {
    choose|i: int| 0 <= i < s.len() && (#[trigger] s[i].0)@ == name
}

/// Whether a name occurs among the action keys of one variant.
pub open spec fn has_action_key(s: Seq<(String, String)>, name: Seq<char>) -> bool {
    exists|i: int| 0 <= i < s.len() && (#[trigger] s[i].0)@ == name
}

/// The index of a name among the action keys of one variant.
pub open spec fn action_key_index(s: Seq<(String, String)>, name: Seq<char>) -> int {
    choose|i: int| 0 <= i < s.len() && (#[trigger] s[i].0)@ == name
}

/// Whether every image reference of an animation points into an image
/// table with `n_images` entries.
pub open spec fn spec_animation_images_ok(a: Animation, n_images: int) -> bool {
    forall|b: int, p: int|
        0 <= b < a.bones@.len() && 0 <= p < a.bones@[b].poses@.len() ==> ((
        #[trigger] a.bones@[b].poses@[p]).image_id matches Option::Some(m) ==> (m as int)
            < n_images)
}

/// The largest bone count over the first `n` animations.
pub open spec fn spec_max_layers(s: Seq<(String, Animation)>, n: int) -> int
    decreases n,
{
    if n <= 0 {
        0
    } else {
        let prev = spec_max_layers(s, n - 1);
        let here = if n - 1 < s.len() {
            s[n - 1].1.bones@.len() as int
        } else {
            0
        };
        if here > prev {
            here
        } else {
            prev
        }
    }
}

/// What the stock-level selection returns: the animation name the
/// table maps the (variant, action) pair to, and nothing when either
/// key is absent.  Falling back to default names is the callers'
/// business, not the table's.
pub open spec fn spec_select(
    selection: Seq<(String, Vec<(String, String)>)>,
    variant: Seq<char>,
    action: Seq<char>,
) -> Option<Seq<char>> {
    if !has_variant_key(selection, variant) {
        Option::None
    } else {
        let actions = selection[variant_key_index(selection, variant)].1@;
        if has_action_key(actions, action) {
            Option::Some(actions[action_key_index(actions, action)].1@)
        } else {
            Option::None
        }
    }
}

/// The compiled, immutable table mapping an animation name, or a
/// (variant, action) pair, to an animation, plus the shared image table.
#[derive(Clone, Debug)]
pub struct Stock {
    pub animations: Vec<(String, Animation)>,
    pub selection: Vec<(String, Vec<(String, String)>)>,
    pub images: Vec<Image>,
    pub max_num_layers: usize,
}

impl Stock {
    /// Whether the stock is well formed: unique keys at every level,
    /// well-formed animations whose image references stay inside the
    /// image table, and a layer bound covering every animation.
    pub open spec fn wf(&self) -> bool {
        &&& forall|i: int, j: int|
            0 <= i < j < self.animations@.len() ==> (#[trigger] self.animations@[i].0)@ != (
            #[trigger] self.animations@[j].0)@
        &&& forall|i: int, j: int|
            0 <= i < j < self.selection@.len() ==> (#[trigger] self.selection@[i].0)@ != (
            #[trigger] self.selection@[j].0)@
        &&& forall|v: int, i: int, j: int|
            0 <= v < self.selection@.len() && 0 <= i < j < self.selection@[v].1@.len() ==> (
            #[trigger] self.selection@[v].1@[i].0)@ != (#[trigger] self.selection@[v].1@[j].0)@
        &&& forall|i: int|
            0 <= i < self.animations@.len() ==> (#[trigger] self.animations@[i].1).wf()
        &&& forall|i: int|
            0 <= i < self.animations@.len() ==> spec_animation_images_ok(
                #[trigger] self.animations@[i].1,
                self.images@.len() as int,
            )
        &&& forall|i: int|
            0 <= i < self.animations@.len() ==> (#[trigger] self.animations@[i].1).bones@.len()
                <= self.max_num_layers
    }

    /// Build a stock and record the largest bone count over its
    /// animations.
    pub fn new(
        animations: Vec<(String, Animation)>,
        selection: Vec<(String, Vec<(String, String)>)>,
        images: Vec<Image>,
    ) -> (r: Stock)
        requires
            forall|i: int, j: int|
                0 <= i < j < animations@.len() ==> (#[trigger] animations@[i].0)@ != (
                #[trigger] animations@[j].0)@,
            forall|i: int, j: int|
                0 <= i < j < selection@.len() ==> (#[trigger] selection@[i].0)@ != (
                #[trigger] selection@[j].0)@,
            forall|v: int, i: int, j: int|
                0 <= v < selection@.len() && 0 <= i < j < selection@[v].1@.len() ==> (
                #[trigger] selection@[v].1@[i].0)@ != (#[trigger] selection@[v].1@[j].0)@,
            forall|i: int| 0 <= i < animations@.len() ==> (#[trigger] animations@[i].1).wf(),
            forall|i: int|
                0 <= i < animations@.len() ==> spec_animation_images_ok(
                    #[trigger] animations@[i].1,
                    images@.len() as int,
                ),
        ensures
            r.animations == animations,
            r.selection == selection,
            r.images == images,
            r.max_num_layers as int == spec_max_layers(animations@, animations@.len() as int),
            r.wf(),
    {
        let mut max_num_layers: usize = 0;
        let mut i: usize = 0;
        while i < animations.len()
            invariant
                0 <= i <= animations@.len(),
                max_num_layers as int == spec_max_layers(animations@, i as int),
                forall|j: int|
                    0 <= j < i ==> (#[trigger] animations@[j].1).bones@.len() <= max_num_layers,
            decreases animations@.len() - i,
        {
            let layers = animations[i].1.get_num_layers();
            if layers > max_num_layers {
                max_num_layers = layers;
            }
            i = i + 1;
        }
        Stock { animations, selection, images, max_num_layers }
    }

    /// The animation registered under a name, if any.
    pub fn get_animation(&self, animation_id: &str) -> (r: Option<&Animation>)
        requires
            self.wf(),
        ensures
            (r is Some) == has_animation_key(self.animations@, animation_id@),
            r matches Some(a) ==> *a == self.animations@[animation_key_index(
                self.animations@,
                animation_id@,
            )].1,
    {
        let mut i: usize = 0;
        while i < self.animations.len()
            invariant
                self.wf(),
                0 <= i <= self.animations@.len(),
                forall|j: int| 0 <= j < i ==> (#[trigger] self.animations@[j].0)@ != animation_id@,
            decreases self.animations@.len() - i,
        {
            if string_eq_str(&self.animations[i].0, animation_id) {
                proof {
                    let j = animation_key_index(self.animations@, animation_id@);
                    assert(0 <= j < self.animations@.len() && self.animations@[j].0@
                        == animation_id@);
                    assert(j == i as int);
                }
                return Option::Some(&self.animations[i].1);
            }
            i = i + 1;
        }
        Option::None
    }

    /// The animation name the table maps a (variant, action) pair to;
    /// an unmapped pair selects nothing.
    pub fn select(&self, variant_name: &str, action_name: &str) -> (r: Option<String>)
        requires
            self.wf(),
        ensures
            r is None <==> spec_select(self.selection@, variant_name@, action_name@) is None,
            r matches Some(s) ==> spec_select(self.selection@, variant_name@, action_name@)
                == Option::Some(s@),
    {
        let vi = match self.find_variant(variant_name) {
            Option::Some(v) => v,
            Option::None => {
                return Option::None;
            },
        };
        let actions = &self.selection[vi].1;
        let ai = match Stock::find_action(actions, action_name) {
            Option::Some(a) => a,
            Option::None => {
                return Option::None;
            },
        };
        Option::Some(actions[ai].1.clone())
    }

    /// The index of a variant in the selection table.
    fn find_variant(&self, name: &str) -> (r: Option<usize>)
        requires
            self.wf(),
        ensures
            (r is Some) == has_variant_key(self.selection@, name@),
            r matches Some(v) ==> (v as int) == variant_key_index(self.selection@, name@)
                && (v as int) < self.selection@.len() && self.selection@[v as int].0@ == name@,
    {
        let mut i: usize = 0;
        while i < self.selection.len()
            invariant
                self.wf(),
                0 <= i <= self.selection@.len(),
                forall|j: int| 0 <= j < i ==> (#[trigger] self.selection@[j].0)@ != name@,
            decreases self.selection@.len() - i,
        {
            if string_eq_str(&self.selection[i].0, name) {
                proof {
                    let j = variant_key_index(self.selection@, name@);
                    assert(0 <= j < self.selection@.len() && self.selection@[j].0@ == name@);
                    assert(j == i as int);
                }
                return Option::Some(i);
            }
            i = i + 1;
        }
        Option::None
    }

    /// The index of an action among one variant's actions.
    fn find_action(actions: &Vec<(String, String)>, name: &str) -> (r: Option<usize>)
        requires
            forall|i: int, j: int|
                0 <= i < j < actions@.len() ==> (#[trigger] actions@[i].0)@ != (
                #[trigger] actions@[j].0)@,
        ensures
            (r is Some) == has_action_key(actions@, name@),
            r matches Some(a) ==> (a as int) == action_key_index(actions@, name@) && (a as int)
                < actions@.len() && actions@[a as int].0@ == name@,
    {
        let mut i: usize = 0;
        while i < actions.len()
            invariant
                forall|k: int, j: int|
                    0 <= k < j < actions@.len() ==> (#[trigger] actions@[k].0)@ != (
                    #[trigger] actions@[j].0)@,
                0 <= i <= actions@.len(),
                forall|j: int| 0 <= j < i ==> (#[trigger] actions@[j].0)@ != name@,
            decreases actions@.len() - i,
        {
            if string_eq_str(&actions[i].0, name) {
                proof {
                    let j = action_key_index(actions@, name@);
                    assert(0 <= j < actions@.len() && actions@[j].0@ == name@);
                    assert(j == i as int);
                }
                return Option::Some(i);
            }
            i = i + 1;
        }
        Option::None
    }

    /// The image metadata for an image index, if the index is in range.
    pub fn get_image(&self, image_id: crate::ids::MediumId) -> (r: Option<&Image>)
        ensures
            (r is Some) == ((image_id as int) < self.images@.len()),
            r matches Some(img) ==> *img == self.images@[image_id as int],
    {
        if image_id < self.images.len() {
            Option::Some(&self.images[image_id])
        } else {
            Option::None
        }
    }

    /// The largest bone count over the stock's animations.
    pub fn get_max_num_layers(&self) -> (r: usize)
        ensures
            r == self.max_num_layers,
    {
        self.max_num_layers
    }
}

} // verus!
