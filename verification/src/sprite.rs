//! One playable instance of an animation stock.
//!
//! A sprite plays one animation chosen from its stock by a
//! (variant, action) pair, and carries child sprites attached at named
//! bones (hooks).  `tick` walks the bone hierarchy in topological order,
//! composes world transforms, and emits the textured tiles for one
//! frame, recursing into attached children.

use vstd::prelude::*;
use vstd::string::StringExecFns;

use crate::geometry::{spec_mat2_apply, spec_mat2_mul, spec_mat2_scale, Matrix2D, Vector2D};
use crate::ids::{MediumId, ResourceId};
use crate::names::string_eq_str;
use crate::skeleton::{
    spec_calc_state_at, Animation, Bone, Image, ACTION_NAME_DEFAULT, VARIANT_NAME_DEFAULT,
};
use crate::stock::{
    animation_key_index, has_animation_key, spec_animation_images_ok, spec_select, Stock,
};
use crate::tile::{spec_tile_corners, Tile, TileV};

verus! {

/// Whether a name occurs among the attached hooks.
pub open spec fn has_hook(s: Seq<(String, Sprite)>, name: Seq<char>) -> bool {
    exists|i: int| 0 <= i < s.len() && (#[trigger] s[i].0)@ == name
}

/// The index of a hook among the attachments.
pub open spec fn hook_index(s: Seq<(String, Sprite)>, name: Seq<char>) -> int {
    choose|i: int| 0 <= i < s.len() && (#[trigger] s[i].0)@ == name
}

/// The world transform of bone `i`: the parent's world transform times
/// the bone's own local transform; the local transform alone for roots.
pub open spec fn spec_world_transform(
    bones: Seq<Bone>,
    moment: int,
    duration: int,
    i: int,
) -> Matrix2D
    decreases i,
{
    let local = spec_calc_state_at(bones[i], moment, duration).0;
    match bones[i].parent_index {
        Option::None => local,
        Option::Some(p) => {
            if 0 <= p < i {
                spec_mat2_mul(spec_world_transform(bones, moment, duration, p as int), local)
            } else {
                local
            }
        },
    }
}

/// The tile emitted for one image-carrying bone: a quad anchored at the
/// image pivot, carried through the bone's world transform, then scaled
/// by the animation's uniform scale.
pub open spec fn spec_image_tile(
    skin_id: MediumId,
    image_id: MediumId,
    img: Image,
    world: Matrix2D,
    scale: int,
) -> TileV {
    let corners = spec_tile_corners(
        crate::fx::spec_fx_neg(img.pivot_x as int),
        crate::fx::spec_fx_sub(img.pivot_y as int, img.size_y as int),
        img.size_x as int,
        img.size_y as int,
    );
    TileV {
        id: ResourceId { skin_id, image_id },
        points: corners.map_values(
            |c: Vector2D|
                spec_mat2_apply(spec_mat2_scale(scale, scale), spec_mat2_apply(world, c)),
        ),
    }
}

/// One playable instance of an animation stock, with child sprites
/// attached at named hooks.
pub struct Sprite {
    pub skin_id: MediumId,
    pub stock: Stock,
    pub selected_animation: Animation,
    pub subsprites: Vec<(String, Sprite)>,
    pub selected_variant_name: String,
    pub selected_action_name: String,
}

impl Sprite {
    /// Whether the sprite is well formed: a well-formed stock, a
    /// well-formed selected animation whose image references stay in the
    /// stock's image table, distinct hooks, and well-formed children.
    pub open spec fn wf(self) -> bool
        decreases self,
    {
        &&& self.stock.wf()
        &&& self.selected_animation.wf()
        &&& spec_animation_images_ok(self.selected_animation, self.stock.images@.len() as int)
        &&& forall|i: int, j: int|
            0 <= i < j < self.subsprites@.len() ==> (#[trigger] self.subsprites@[i].0)@ != (
            #[trigger] self.subsprites@[j].0)@
        &&& forall|i: int|
            0 <= i < self.subsprites@.len() ==> (#[trigger] self.subsprites@[i].1).wf()
    }

    /// Whether the whole attachment tree can be queried at a moment:
    /// wherever a bone carries a multi-pose track, the moment is
    /// nonnegative and not earlier than the track's first keyframe,
    /// here and in every attached child.  A tree of single-pose bones
    /// is tickable at any moment.
    pub open spec fn tickable(self, moment: int) -> bool
        decreases self,
    {
        &&& forall|b: int|
            0 <= b < self.selected_animation.bones@.len() ==> ((
            #[trigger] self.selected_animation.bones@[b]).poses@.len() >= 2 ==> moment >= 0
                && moment % (self.selected_animation.duration as int)
                >= self.selected_animation.bones@[b].poses@[0].moment)
        &&& forall|i: int|
            0 <= i < self.subsprites@.len() ==> (#[trigger] self.subsprites@[i].1).tickable(
                moment,
            )
    }

    /// Create a sprite playing the default variant's default action.
    pub fn new(skin_id: MediumId, stock: Stock) -> (r: Sprite)
        requires
            stock.wf(),
            spec_select(stock.selection@, VARIANT_NAME_DEFAULT@, ACTION_NAME_DEFAULT@)
                matches Option::Some(name) && has_animation_key(stock.animations@, name),
        ensures
            r.skin_id == skin_id,
            r.stock == stock,
            r.subsprites@.len() == 0,
            r.selected_variant_name@ == VARIANT_NAME_DEFAULT@,
            r.selected_action_name@ == ACTION_NAME_DEFAULT@,
            spec_select(stock.selection@, VARIANT_NAME_DEFAULT@, ACTION_NAME_DEFAULT@)
                matches Option::Some(name) && r.selected_animation@ == stock.animations@[animation_key_index(stock.animations@, name)].1@,
            r.wf(),
    {
        let animation_id = match stock.select(VARIANT_NAME_DEFAULT, ACTION_NAME_DEFAULT) {
            Option::Some(id) => id,
            Option::None => {
                proof {
                    assert(false);
                }
                String::new()
            },
        };
        let ghost src_index = animation_key_index(stock.animations@, animation_id@);
        let animation = match stock.get_animation(animation_id.as_str()) {
            Option::Some(a) => clone_animation(a),
            Option::None => {
                proof {
                    assert(false);
                }
                Animation {
                    name: String::new(),
                    duration: 1,
                    is_looped: false,
                    scale: 1,
                    bones: Vec::new(),
                    draw_order: Vec::new(),
                }
            },
        };
        proof {
            let src = stock.animations@[src_index].1;
            assert(src.wf());
            assert(spec_animation_images_ok(src, stock.images@.len() as int));
            assert(spec_animation_images_ok(animation, stock.images@.len() as int)) by {
                assert forall|b: int, p: int|
                    0 <= b < animation.bones@.len() && 0 <= p < animation.bones@[b].poses@.len()
                    implies ((#[trigger] animation.bones@[b].poses@[p]).image_id
                    matches Option::Some(m) ==> (m as int) < stock.images@.len()) by {
                    assert(animation.bones@[b].poses@ == src.bones@[b].poses@);
                }
            }
        }
        let variant = String::from_str(VARIANT_NAME_DEFAULT);
        let action = String::from_str(ACTION_NAME_DEFAULT);
        Sprite {
            skin_id,
            stock,
            selected_animation: animation,
            subsprites: Vec::new(),
            selected_variant_name: variant,
            selected_action_name: action,
        }
    }

    /// The duration of the selected animation.
    pub fn get_animation_duration(&self) -> (r: i64)
        ensures
            r == self.selected_animation.duration,
    {
        self.selected_animation.get_duration()
    }

    /// Whether the selected animation loops.
    pub fn is_looped(&self) -> (r: bool)
        ensures
            r == self.selected_animation.is_looped,
    {
        self.selected_animation.is_looped()
    }

    /// The largest layer count over the stock's animations.
    pub fn get_max_num_layers(&self) -> (r: usize)
        ensures
            r == self.stock.max_num_layers,
    {
        self.stock.get_max_num_layers()
    }

    /// The selected variant's name.
    pub fn get_selected_variant_name(&self) -> (r: &String)
        ensures
            r == &self.selected_variant_name,
    {
        &self.selected_variant_name
    }

    /// The selected action's name.
    pub fn get_selected_action_name(&self) -> (r: &String)
        ensures
            r == &self.selected_action_name,
    {
        &self.selected_action_name
    }

    /// The index of an attached hook, if present.
    fn find_subsprite(&self, name: &str) -> (r: Option<usize>)
        requires
            forall|i: int, j: int|
                0 <= i < j < self.subsprites@.len() ==> (#[trigger] self.subsprites@[i].0)@ != (
                #[trigger] self.subsprites@[j].0)@,
        ensures
            (r is Some) == has_hook(self.subsprites@, name@),
            r matches Some(i) ==> (i as int) == hook_index(self.subsprites@, name@) && (i as int)
                < self.subsprites@.len() && self.subsprites@[i as int].0@ == name@,
    {
        let mut i: usize = 0;
        while i < self.subsprites.len()
            invariant
                forall|k: int, j: int|
                    0 <= k < j < self.subsprites@.len() ==> (#[trigger] self.subsprites@[k].0)@
                        != (#[trigger] self.subsprites@[j].0)@,
                0 <= i <= self.subsprites@.len(),
                forall|j: int| 0 <= j < i ==> (#[trigger] self.subsprites@[j].0)@ != name@,
            decreases self.subsprites@.len() - i,
        {
            if string_eq_str(&self.subsprites[i].0, name) {
                proof {
                    let j = hook_index(self.subsprites@, name@);
                    assert(0 <= j < self.subsprites@.len() && self.subsprites@[j].0@ == name@);
                    assert(j == i as int);
                }
                return Option::Some(i);
            }
            i = i + 1;
        }
        Option::None
    }

    /// Attach a child sprite at a hook, replacing any sprite already
    /// attached there.
    pub fn attach_sprite(&mut self, hook_name: String, sprite: Sprite)
        requires
            old(self).wf(),
            sprite.wf(),
        ensures
            final(self).wf(),
            final(self).skin_id == old(self).skin_id,
            final(self).stock == old(self).stock,
            final(self).selected_animation == old(self).selected_animation,
            final(self).selected_variant_name == old(self).selected_variant_name,
            final(self).selected_action_name == old(self).selected_action_name,
            has_hook(final(self).subsprites@, hook_name@),
            final(self).subsprites@[hook_index(final(self).subsprites@, hook_name@)].1 == sprite,
            forall|i: int|
                0 <= i < old(self).subsprites@.len() && (#[trigger] old(self).subsprites@[i].0)@
                    != hook_name@ ==> final(self).subsprites@[i] == old(self).subsprites@[i],
            !has_hook(old(self).subsprites@, hook_name@) ==> final(self).subsprites@ == old(
                self,
            ).subsprites@.push((hook_name, sprite)),
            has_hook(old(self).subsprites@, hook_name@) ==> final(self).subsprites@.len() == old(
                self,
            ).subsprites@.len(),
    {
        match self.find_subsprite(hook_name.as_str()) {
            Option::Some(i) => {
                self.subsprites.set(i, (hook_name, sprite));
                proof {
                    assert(self.subsprites@[i as int].0@ == hook_name@);
                    let j = hook_index(self.subsprites@, hook_name@);
                    assert(0 <= j < self.subsprites@.len() && self.subsprites@[j].0@
                        == hook_name@);
                    assert(j == i as int);
                }
            },
            Option::None => {
                self.subsprites.push((hook_name, sprite));
                proof {
                    let n = self.subsprites@.len() - 1;
                    assert(self.subsprites@[n].0@ == hook_name@);
                    let j = hook_index(self.subsprites@, hook_name@);
                    assert(0 <= j < self.subsprites@.len() && self.subsprites@[j].0@
                        == hook_name@);
                    assert(j == n);
                }
            },
        }
    }

    /// Detach the child sprite at a hook; detaching a hook with nothing
    /// attached is a no-op.
    pub fn detach_sprite(&mut self, hook_name: &str)
        requires
            old(self).wf(),
        ensures
            final(self).wf(),
            final(self).skin_id == old(self).skin_id,
            final(self).stock == old(self).stock,
            final(self).selected_animation == old(self).selected_animation,
            final(self).selected_variant_name == old(self).selected_variant_name,
            final(self).selected_action_name == old(self).selected_action_name,
            !has_hook(final(self).subsprites@, hook_name@),
            !has_hook(old(self).subsprites@, hook_name@) ==> final(self).subsprites@ == old(
                self,
            ).subsprites@,
            has_hook(old(self).subsprites@, hook_name@) ==> final(self).subsprites@ == old(
                self,
            ).subsprites@.remove(hook_index(old(self).subsprites@, hook_name@)),
    {
        match self.find_subsprite(hook_name) {
            Option::Some(i) => {
                self.subsprites.remove(i);
                proof {
                    let s0 = old(self).subsprites@;
                    assert(self.subsprites@ == s0.remove(i as int));
                    assert forall|j: int|
                        0 <= j < self.subsprites@.len() implies (#[trigger] self.subsprites@[
                        j].0)@ != hook_name@ by {
                        if j < i as int {
                            assert(self.subsprites@[j] == s0[j]);
                        } else {
                            assert(self.subsprites@[j] == s0[j + 1]);
                        }
                    }
                    assert forall|j1: int, j2: int|
                        0 <= j1 < j2 < self.subsprites@.len() implies (
                    #[trigger] self.subsprites@[j1].0)@ != (#[trigger] self.subsprites@[j2].0)@
                        by {
                        if j2 < i as int {
                        } else if j1 < i as int {
                            assert(self.subsprites@[j1] == s0[j1]);
                            assert(self.subsprites@[j2] == s0[j2 + 1]);
                        } else {
                            assert(self.subsprites@[j1] == s0[j1 + 1]);
                            assert(self.subsprites@[j2] == s0[j2 + 1]);
                        }
                    }
                    assert forall|j: int|
                        0 <= j < self.subsprites@.len() implies (#[trigger] self.subsprites@[
                        j].1).wf() by {
                        if j < i as int {
                            assert(self.subsprites@[j] == s0[j]);
                        } else {
                            assert(self.subsprites@[j] == s0[j + 1]);
                        }
                    }
                }
            },
            Option::None => {},
        }
    }
}

/// The tiles emitted by the first `k` entries of the paint order of a
/// sprite's selected animation, children included.
pub open spec fn spec_tick_upto(s: Sprite, moment: int, k: int) -> Seq<TileV>
    decreases s, k,
{
    if k <= 0 {
        Seq::empty()
    } else {
        let anim = s.selected_animation;
        let prev = spec_tick_upto(s, moment, k - 1);
        let slot: Seq<TileV> = if k - 1 < anim.draw_order@.len() {
            let idx = anim.draw_order@[k - 1] as int;
            if 0 <= idx < anim.bones@.len() {
                let bone = anim.bones@[idx];
                let world = spec_world_transform(anim.bones@, moment, anim.duration as int, idx);
                if has_hook(s.subsprites@, bone.name@) {
                    let child = s.subsprites@[hook_index(s.subsprites@, bone.name@)].1;
                    let inv = crate::fx::spec_fx_div(crate::fx::FX_ONE as int, anim.scale as int);
                    let composite = spec_mat2_mul(
                        spec_mat2_mul(
                            spec_mat2_scale(anim.scale as int, anim.scale as int),
                            world,
                        ),
                        spec_mat2_scale(inv, inv),
                    );
                    spec_tick_upto(
                        child,
                        moment,
                        child.selected_animation.draw_order@.len() as int,
                    ).map_values(
                        |tv: TileV|
                            TileV {
                                id: tv.id,
                                points: tv.points.map_values(
                                    |c: Vector2D| spec_mat2_apply(composite, c),
                                ),
                            },
                    )
                } else {
                    match spec_calc_state_at(bone, moment, anim.duration as int).1 {
                        Option::Some(image_id) => {
                            if (image_id as int) < s.stock.images@.len() {
                                seq![
                                    spec_image_tile(
                                        s.skin_id,
                                        image_id,
                                        s.stock.images@[image_id as int],
                                        world,
                                        anim.scale as int,
                                    ),
                                ]
                            } else {
                                Seq::empty()
                            }
                        },
                        Option::None => Seq::empty(),
                    }
                }
            } else {
                Seq::empty()
            }
        } else {
            Seq::empty()
        };
        prev + slot
    }
}

/// All tiles emitted by one frame of a sprite, children included, in
/// paint order.
pub open spec fn spec_tick(s: Sprite, moment: int) -> Seq<TileV> {
    spec_tick_upto(s, moment, s.selected_animation.draw_order@.len() as int)
}

impl Sprite {
    /// Compute every bone's world transform in topological order, then
    /// emit, for each paint-order entry, either the attached child's
    /// tiles (carried through this animation's scale-stripped transform)
    /// or the bone's own image tile.
    #[verifier::rlimit(100)]
    pub fn tick(&self, moment: i64) -> (r: Vec<Tile>)
        requires
            self.wf(),
            self.tickable(moment as int),
        ensures
            r@.len() == spec_tick(*self, moment as int).len(),
            forall|i: int|
                0 <= i < r@.len() ==> (#[trigger] r@[i])@ == spec_tick(*self, moment as int)[i],
        decreases *self, 1int,
    {
        let ghost m = moment as int;
        let animation = &self.selected_animation;
        let ghost dur = animation.duration as int;
        let scale_pair = animation.get_scale();
        let scale_m = Matrix2D::scale(scale_pair);
        let unscale_pair = animation.get_scale_reversed();
        let unscale_m = Matrix2D::scale(unscale_pair);
        let n = animation.bones.len();
        let mut infos: Vec<(Matrix2D, Option<MediumId>)> = Vec::new();
        let mut b: usize = 0;
        while b < n
            invariant
                self.wf(),
                self.tickable(m),
                m == moment as int,
                dur == self.selected_animation.duration as int,
                n == self.selected_animation.bones@.len(),
                0 <= b <= n,
                infos@.len() == b,
                forall|k: int|
                    0 <= k < b ==> (#[trigger] infos@[k]).0 == spec_world_transform(
                        self.selected_animation.bones@,
                        m,
                        dur,
                        k,
                    ) && infos@[k].1 == spec_calc_state_at(
                        self.selected_animation.bones@[k],
                        m,
                        dur,
                    ).1 && (infos@[k].1 matches Option::Some(mm) ==> (mm as int)
                        < self.stock.images@.len()),
            decreases n - b,
        {
            let bone = &self.selected_animation.bones[b];
            let state = bone.calc_state_at(moment, self.selected_animation.duration);
            let local = state.0;
            let image_id = state.1;
            let trans = match bone.get_parent_index() {
                Option::Some(p) => {
                    if p < b {
                        infos[p].0.times(&local)
                    } else {
                        local
                    }
                },
                Option::None => local,
            };
            proof {
                let ghost_img = image_id;
                match ghost_img {
                    Option::Some(mm) => {
                        let p = choose|p: int|
                            0 <= p < bone.poses@.len() && (#[trigger] bone.poses@[p]).image_id
                                == Option::Some(mm);
                        assert(bone.poses@[p].image_id == Option::Some(mm));
                        assert(spec_animation_images_ok(
                            self.selected_animation,
                            self.stock.images@.len() as int,
                        ));
                        assert((mm as int) < self.stock.images@.len());
                    },
                    Option::None => {},
                }
            }
            infos.push((trans, image_id));
            b = b + 1;
        }
        let mut tiles: Vec<Tile> = Vec::new();
        let d_len = animation.draw_order.len();
        let mut k: usize = 0;
        while k < d_len
            invariant
                self.wf(),
                self.tickable(m),
                m == moment as int,
                dur == self.selected_animation.duration as int,
                n == self.selected_animation.bones@.len(),
                d_len == self.selected_animation.draw_order@.len(),
                scale_pair.0 == self.selected_animation.scale,
                scale_pair.1 == self.selected_animation.scale,
                scale_m == spec_mat2_scale(
                    self.selected_animation.scale as int,
                    self.selected_animation.scale as int,
                ),
                unscale_m == spec_mat2_scale(
                    crate::fx::spec_fx_div(
                        crate::fx::FX_ONE as int,
                        self.selected_animation.scale as int,
                    ),
                    crate::fx::spec_fx_div(
                        crate::fx::FX_ONE as int,
                        self.selected_animation.scale as int,
                    ),
                ),
                infos@.len() == n,
                forall|kk: int|
                    0 <= kk < n ==> (#[trigger] infos@[kk]).0 == spec_world_transform(
                        self.selected_animation.bones@,
                        m,
                        dur,
                        kk,
                    ) && infos@[kk].1 == spec_calc_state_at(
                        self.selected_animation.bones@[kk],
                        m,
                        dur,
                    ).1 && (infos@[kk].1 matches Option::Some(mm) ==> (mm as int)
                        < self.stock.images@.len()),
                0 <= k <= d_len,
                tiles@.len() == spec_tick_upto(*self, m, k as int).len(),
                forall|i: int|
                    0 <= i < tiles@.len() ==> (#[trigger] tiles@[i])@ == spec_tick_upto(
                        *self,
                        m,
                        k as int,
                    )[i],
            decreases d_len - k,
        {
            let ghost before = tiles@;
            self.emit_slot(&mut tiles, &infos, k, moment, &scale_m, &unscale_m, scale_pair);
            proof {
                let prev = spec_tick_upto(*self, m, k as int);
                let full = spec_tick_upto(*self, m, k as int + 1);
                assert(before.len() == prev.len());
                assert forall|i: int|
                    0 <= i < tiles@.len() implies (#[trigger] tiles@[i])@ == full[i] by {
                    if i < prev.len() {
                        assert(tiles@[i] == before[i]);
                        assert(before[i]@ == prev[i]);
                        assert(full[i] == prev[i]);
                    } else {
                        assert(tiles@[before.len() + (i - prev.len())]@ == full[prev.len() + (
                        i - prev.len())]);
                    }
                }
            }
            k = k + 1;
        }
        tiles
    }


    /// Emit the tiles for one paint-order entry: the attached child's
    /// transformed tiles, or the bone's own image tile.
    #[verifier::rlimit(100)]
    fn emit_slot(
        &self,
        tiles: &mut Vec<Tile>,
        infos: &Vec<(Matrix2D, Option<MediumId>)>,
        k: usize,
        moment: i64,
        scale_m: &Matrix2D,
        unscale_m: &Matrix2D,
        scale_pair: (i64, i64),
    )
        requires
            self.wf(),
            self.tickable(moment as int),
            (k as int) < self.selected_animation.draw_order@.len(),
            infos@.len() == self.selected_animation.bones@.len(),
            forall|kk: int|
                0 <= kk < infos@.len() ==> (#[trigger] infos@[kk]).0 == spec_world_transform(
                    self.selected_animation.bones@,
                    moment as int,
                    self.selected_animation.duration as int,
                    kk,
                ) && infos@[kk].1 == spec_calc_state_at(
                    self.selected_animation.bones@[kk],
                    moment as int,
                    self.selected_animation.duration as int,
                ).1 && (infos@[kk].1 matches Option::Some(mm) ==> (mm as int)
                    < self.stock.images@.len()),
            scale_pair.0 == self.selected_animation.scale,
            scale_pair.1 == self.selected_animation.scale,
            *scale_m == spec_mat2_scale(
                self.selected_animation.scale as int,
                self.selected_animation.scale as int,
            ),
            *unscale_m == spec_mat2_scale(
                crate::fx::spec_fx_div(
                    crate::fx::FX_ONE as int,
                    self.selected_animation.scale as int,
                ),
                crate::fx::spec_fx_div(
                    crate::fx::FX_ONE as int,
                    self.selected_animation.scale as int,
                ),
            ),
        ensures
            ({
                let m = moment as int;
                let prev = spec_tick_upto(*self, m, k as int);
                let full = spec_tick_upto(*self, m, k as int + 1);
                &&& full.len() >= prev.len()
                &&& final(tiles)@.len() == old(tiles)@.len() + (full.len() - prev.len())
                &&& forall|i: int|
                    0 <= i < old(tiles)@.len() ==> #[trigger] final(tiles)@[i] == old(tiles)@[i]
                &&& forall|j: int|
                    0 <= j < full.len() - prev.len() ==> (#[trigger] final(tiles)@[old(
                        tiles,
                    )@.len() + j])@ == full[prev.len() + j]
                &&& forall|i: int| 0 <= i < prev.len() ==> #[trigger] full[i] == prev[i]
            }),
        decreases *self, 0int,
    {
        let ghost m = moment as int;
        let ghost dur = self.selected_animation.duration as int;
        let ghost prev_spec = spec_tick_upto(*self, m, k as int);
        let n = self.selected_animation.bones.len();
        let index = self.selected_animation.draw_order[k];
        if index < n {
            let ghost world = spec_world_transform(
                self.selected_animation.bones@,
                m,
                dur,
                index as int,
            );
            let bone_name = self.selected_animation.bones[index].get_name();
            match self.find_subsprite(bone_name) {
                Option::Some(si) => {
                    let composite = scale_m.times(&infos[index].0).times(unscale_m);
                    let subtiles = self.subsprites[si].1.tick(moment);
                    let ghost child = self.subsprites@[si as int].1;
                    let ghost sub_spec = spec_tick_upto(
                        child,
                        m,
                        child.selected_animation.draw_order@.len() as int,
                    );
                    let ghost slot_spec = sub_spec.map_values(
                        |tv: TileV|
                            TileV {
                                id: tv.id,
                                points: tv.points.map_values(
                                    |c: Vector2D| spec_mat2_apply(composite, c),
                                ),
                            },
                    );
                    proof {
                        assert forall|j: int|
                            0 <= j < sub_spec.len() implies (#[trigger] slot_spec[j]).id
                            == sub_spec[j].id && slot_spec[j].points.len()
                            == sub_spec[j].points.len() && (forall|ci: int|
                            0 <= ci < sub_spec[j].points.len()
                                ==> #[trigger] slot_spec[j].points[ci] == spec_mat2_apply(
                                composite,
                                sub_spec[j].points[ci],
                            )) by {
                            assert(slot_spec[j].points == sub_spec[j].points.map_values(
                                |c: Vector2D| spec_mat2_apply(composite, c),
                            ));
                        }
                    }
                    let mut t: usize = 0;
                    while t < subtiles.len()
                        invariant
                            subtiles@.len() == sub_spec.len(),
                            slot_spec.len() == sub_spec.len(),
                            forall|j: int|
                                0 <= j < subtiles@.len() ==> (#[trigger] subtiles@[j])@
                                    == sub_spec[j],
                            forall|j: int|
                                0 <= j < sub_spec.len() ==> (#[trigger] slot_spec[j]).id
                                    == sub_spec[j].id && slot_spec[j].points.len()
                                    == sub_spec[j].points.len() && (forall|ci: int|
                                    0 <= ci < sub_spec[j].points.len()
                                        ==> #[trigger] slot_spec[j].points[ci]
                                        == spec_mat2_apply(
                                        composite,
                                        sub_spec[j].points[ci],
                                    )),
                            0 <= t <= subtiles@.len(),
                            tiles@.len() == old(tiles)@.len() + t,
                            forall|i: int|
                                0 <= i < old(tiles)@.len() ==> #[trigger] tiles@[i] == old(
                                    tiles,
                                )@[i],
                            forall|j: int|
                                0 <= j < t ==> (#[trigger] tiles@[old(tiles)@.len() + j])@
                                    == slot_spec[j],
                        decreases subtiles@.len() - t,
                    {
                        let moved = subtiles[t].transformed(&composite);
                        proof {
                            assert(subtiles@[t as int]@ == sub_spec[t as int]);
                            assert(moved@.points =~= slot_spec[t as int].points);
                            assert(moved@ =~= slot_spec[t as int]);
                        }
                        tiles.push(moved);
                        t = t + 1;
                    }
                    proof {
                        assert(spec_tick_upto(*self, m, k as int + 1) =~~= prev_spec
                            + slot_spec);
                    }
                },
                Option::None => {
                    match infos[index].1 {
                        Option::Some(image_id) => {
                            let image = match self.stock.get_image(image_id) {
                                Option::Some(im) => im,
                                Option::None => {
                                    proof {
                                        assert(false);
                                    }
                                    &self.stock.images[0]
                                },
                            };
                            let resource_id = ResourceId::new(self.skin_id, image_id);
                            let tile = Sprite::make_tile(resource_id, image, &infos[index].0);
                            let scaled_tile = tile.scaled(scale_pair);
                            proof {
                                let spec_t = spec_image_tile(
                                    self.skin_id,
                                    image_id,
                                    self.stock.images@[image_id as int],
                                    world,
                                    self.selected_animation.scale as int,
                                );
                                assert(scaled_tile@.points =~= spec_t.points);
                                assert(scaled_tile@ =~= spec_t);
                                assert(spec_tick_upto(*self, m, k as int + 1) =~= prev_spec
                                    + seq![spec_t]);
                            }
                            tiles.push(scaled_tile);
                        },
                        Option::None => {
                            proof {
                                assert(spec_tick_upto(*self, m, k as int + 1) =~= prev_spec);
                            }
                        },
                    }
                },
            }
        } else {
            proof {
                assert(spec_tick_upto(*self, m, k as int + 1) =~= prev_spec);
            }
        }
    }

    /// One tile for an image-carrying bone, anchored at the image pivot
    /// and carried through the bone's world transform.
    fn make_tile(resource_id: ResourceId, image: &Image, trans: &Matrix2D) -> (r: Tile)
        ensures
            r.id == resource_id,
            r.points@.len() == 4,
            forall|i: int|
                0 <= i < 4 ==> (#[trigger] r.points@[i]) == spec_mat2_apply(
                    *trans,
                    spec_tile_corners(
                        crate::fx::spec_fx_neg(image.pivot_x as int),
                        crate::fx::spec_fx_sub(image.pivot_y as int, image.size_y as int),
                        image.size_x as int,
                        image.size_y as int,
                    )[i],
                ),
    {
        let image_pivot = image.get_pivot();
        let image_size = image.get_size();
        let tile_pivot = (
            crate::fx::fx_neg(image_pivot.0),
            crate::fx::fx_sub(image_pivot.1, image_size.1),
        );
        let mut tile = Tile::new(resource_id, tile_pivot, image_size);
        tile.transform(trans);
        tile
    }
}

/// Whether a (variant, action) pair selects an animation that the stock
/// really holds.
pub open spec fn spec_selectable(stock: Stock, variant: Seq<char>, action: Seq<char>) -> bool {
    match spec_select(stock.selection@, variant, action) {
        Option::Some(nm) => has_animation_key(stock.animations@, nm),
        Option::None => false,
    }
}

/// The animation a (variant, action) pair selects.
pub open spec fn spec_selected_animation(
    stock: Stock,
    variant: Seq<char>,
    action: Seq<char>,
) -> crate::skeleton::AnimationV
    recommends
        spec_selectable(stock, variant, action),
{
    match spec_select(stock.selection@, variant, action) {
        Option::Some(nm) => stock.animations@[animation_key_index(stock.animations@, nm)].1@,
        Option::None => vstd::pervasive::arbitrary(),
    }
}

/// A selection with a fallback on the variant axis: when the requested
/// variant selects nothing, the default variant is tried with the same
/// action.
pub open spec fn spec_selectable_or_default_variant(
    stock: Stock,
    variant: Seq<char>,
    action: Seq<char>,
) -> bool {
    if spec_select(stock.selection@, variant, action) is Some {
        spec_selectable(stock, variant, action)
    } else {
        spec_selectable(stock, VARIANT_NAME_DEFAULT@, action)
    }
}

/// The animation chosen by the variant-axis fallback.
pub open spec fn spec_selected_or_default_variant(
    stock: Stock,
    variant: Seq<char>,
    action: Seq<char>,
) -> crate::skeleton::AnimationV {
    if spec_select(stock.selection@, variant, action) is Some {
        spec_selected_animation(stock, variant, action)
    } else {
        spec_selected_animation(stock, VARIANT_NAME_DEFAULT@, action)
    }
}

/// A selection with a fallback on the action axis: when the requested
/// action selects nothing, the default action is tried with the same
/// variant.
pub open spec fn spec_selectable_or_default_action(
    stock: Stock,
    variant: Seq<char>,
    action: Seq<char>,
) -> bool {
    if spec_select(stock.selection@, variant, action) is Some {
        spec_selectable(stock, variant, action)
    } else {
        spec_selectable(stock, variant, ACTION_NAME_DEFAULT@)
    }
}

/// The animation chosen by the action-axis fallback.
pub open spec fn spec_selected_or_default_action(
    stock: Stock,
    variant: Seq<char>,
    action: Seq<char>,
) -> crate::skeleton::AnimationV {
    if spec_select(stock.selection@, variant, action) is Some {
        spec_selected_animation(stock, variant, action)
    } else {
        spec_selected_animation(stock, variant, ACTION_NAME_DEFAULT@)
    }
}

/// Look an animation up and return a well-formed copy of it.
fn clone_stock_animation(stock: &Stock, name: &str) -> (r: Option<Animation>)
    requires
        stock.wf(),
    ensures
        (r is Some) == has_animation_key(stock.animations@, name@),
        r matches Some(a) ==> a@ == stock.animations@[animation_key_index(
            stock.animations@,
            name@,
        )].1@ && a.wf() && spec_animation_images_ok(a, stock.images@.len() as int),
{
    match stock.get_animation(name) {
        Option::Some(a) => {
            let c = clone_animation(a);
            proof {
                assert(a.wf());
                assert(spec_animation_images_ok(*a, stock.images@.len() as int));
                assert(spec_animation_images_ok(c, stock.images@.len() as int)) by {
                    assert forall|b: int, p: int|
                        0 <= b < c.bones@.len() && 0 <= p < c.bones@[b].poses@.len() implies ((
                    #[trigger] c.bones@[b].poses@[p]).image_id matches Option::Some(m) ==> (
                    m as int) < stock.images@.len()) by {
                        assert(c.bones@[b].poses@ == a.bones@[b].poses@);
                    }
                }
            }
            Option::Some(c)
        },
        Option::None => Option::None,
    }
}

impl Sprite {
    /// Select the animation for a variant, keeping the current action.
    /// Selecting the already-selected variant is a no-op; an unknown
    /// selection fails without side effects.
    pub fn select_variant(&mut self, variant_name: &str) -> (r: Result<(), ()>)
        requires
            old(self).wf(),
        ensures
            final(self).wf(),
            r is Ok <==> (old(self).selected_variant_name@ == variant_name@ || spec_selectable(
                old(self).stock,
                variant_name@,
                old(self).selected_action_name@,
            )),
            old(self).selected_variant_name@ == variant_name@ ==> *final(self) == *old(self),
            r is Err ==> *final(self) == *old(self),
            old(self).selected_variant_name@ != variant_name@ && spec_selectable(
                old(self).stock,
                variant_name@,
                old(self).selected_action_name@,
            ) ==> final(self).selected_animation@ == spec_selected_animation(
                old(self).stock,
                variant_name@,
                old(self).selected_action_name@,
            ) && final(self).selected_variant_name@ == variant_name@
                && final(self).selected_action_name == old(self).selected_action_name && final(self).stock == old(self).stock && final(self).skin_id == old(self).skin_id && final(self).subsprites == old(self).subsprites,
    {
        if string_eq_str(&self.selected_variant_name, variant_name) {
            return Result::Ok(());
        }
        let animation_id = match self.stock.select(variant_name, self.selected_action_name.as_str()) {
            Option::Some(id) => id,
            Option::None => {
                return Result::Err(());
            },
        };
        let cloned = match clone_stock_animation(&self.stock, animation_id.as_str()) {
            Option::Some(a) => a,
            Option::None => {
                return Result::Err(());
            },
        };
        self.selected_animation = cloned;
        self.selected_variant_name = String::from_str(variant_name);
        Result::Ok(())
    }

    /// Select the animation for an action, keeping the current variant.
    /// Selecting the already-selected action is a no-op; an unknown
    /// selection fails without side effects.
    pub fn select_action(&mut self, action_name: &str) -> (r: Result<(), ()>)
        requires
            old(self).wf(),
        ensures
            final(self).wf(),
            r is Ok <==> (old(self).selected_action_name@ == action_name@ || spec_selectable(
                old(self).stock,
                old(self).selected_variant_name@,
                action_name@,
            )),
            old(self).selected_action_name@ == action_name@ ==> *final(self) == *old(self),
            r is Err ==> *final(self) == *old(self),
            old(self).selected_action_name@ != action_name@ && spec_selectable(
                old(self).stock,
                old(self).selected_variant_name@,
                action_name@,
            ) ==> final(self).selected_animation@ == spec_selected_animation(
                old(self).stock,
                old(self).selected_variant_name@,
                action_name@,
            ) && final(self).selected_action_name@ == action_name@
                && final(self).selected_variant_name == old(self).selected_variant_name && final(self).stock == old(self).stock && final(self).skin_id == old(self).skin_id && final(self).subsprites == old(self).subsprites,
    {
        if string_eq_str(&self.selected_action_name, action_name) {
            return Result::Ok(());
        }
        let animation_id = match self.stock.select(self.selected_variant_name.as_str(), action_name) {
            Option::Some(id) => id,
            Option::None => {
                return Result::Err(());
            },
        };
        let cloned = match clone_stock_animation(&self.stock, animation_id.as_str()) {
            Option::Some(a) => a,
            Option::None => {
                return Result::Err(());
            },
        };
        self.selected_animation = cloned;
        self.selected_action_name = String::from_str(action_name);
        Result::Ok(())
    }

    /// Select a variant, falling back to the default variant (keeping
    /// the requested name and the current action) when the requested
    /// variant selects nothing.
    pub fn select_variant_or_default(&mut self, variant_name: &str) -> (r: Result<(), ()>)
        requires
            old(self).wf(),
        ensures
            final(self).wf(),
            r is Ok <==> (old(self).selected_variant_name@ == variant_name@
                || spec_selectable_or_default_variant(
                old(self).stock,
                variant_name@,
                old(self).selected_action_name@,
            )),
            old(self).selected_variant_name@ == variant_name@ ==> *final(self) == *old(self),
            r is Err ==> *final(self) == *old(self),
            old(self).selected_variant_name@ != variant_name@
                && spec_selectable_or_default_variant(
                old(self).stock,
                variant_name@,
                old(self).selected_action_name@,
            ) ==> final(self).selected_animation@ == spec_selected_or_default_variant(
                old(self).stock,
                variant_name@,
                old(self).selected_action_name@,
            ) && final(self).selected_variant_name@ == variant_name@
                && final(self).selected_action_name == old(self).selected_action_name && final(self).stock == old(self).stock && final(self).skin_id == old(self).skin_id && final(self).subsprites == old(self).subsprites,
    {
        if string_eq_str(&self.selected_variant_name, variant_name) {
            return Result::Ok(());
        }
        let first = self.stock.select(variant_name, self.selected_action_name.as_str());
        let animation_id = match first {
            Option::Some(id) => id,
            Option::None => {
                match self.stock.select(VARIANT_NAME_DEFAULT, self.selected_action_name.as_str()) {
                    Option::Some(id) => id,
                    Option::None => {
                        return Result::Err(());
                    },
                }
            },
        };
        let cloned = match clone_stock_animation(&self.stock, animation_id.as_str()) {
            Option::Some(a) => a,
            Option::None => {
                return Result::Err(());
            },
        };
        self.selected_animation = cloned;
        self.selected_variant_name = String::from_str(variant_name);
        Result::Ok(())
    }

    /// Select an action, falling back to the default action (keeping
    /// the requested name and the current variant) when the requested
    /// action selects nothing.
    pub fn select_action_or_default(&mut self, action_name: &str) -> (r: Result<(), ()>)
        requires
            old(self).wf(),
        ensures
            final(self).wf(),
            r is Ok <==> (old(self).selected_action_name@ == action_name@
                || spec_selectable_or_default_action(
                old(self).stock,
                old(self).selected_variant_name@,
                action_name@,
            )),
            old(self).selected_action_name@ == action_name@ ==> *final(self) == *old(self),
            r is Err ==> *final(self) == *old(self),
            old(self).selected_action_name@ != action_name@ && spec_selectable_or_default_action(
                old(self).stock,
                old(self).selected_variant_name@,
                action_name@,
            ) ==> final(self).selected_animation@ == spec_selected_or_default_action(
                old(self).stock,
                old(self).selected_variant_name@,
                action_name@,
            ) && final(self).selected_action_name@ == action_name@
                && final(self).selected_variant_name == old(self).selected_variant_name && final(self).stock == old(self).stock && final(self).skin_id == old(self).skin_id && final(self).subsprites == old(self).subsprites,
    {
        if string_eq_str(&self.selected_action_name, action_name) {
            return Result::Ok(());
        }
        let first = self.stock.select(self.selected_variant_name.as_str(), action_name);
        let animation_id = match first {
            Option::Some(id) => id,
            Option::None => {
                match self.stock.select(self.selected_variant_name.as_str(), ACTION_NAME_DEFAULT) {
                    Option::Some(id) => id,
                    Option::None => {
                        return Result::Err(());
                    },
                }
            },
        };
        let cloned = match clone_stock_animation(&self.stock, animation_id.as_str()) {
            Option::Some(a) => a,
            Option::None => {
                return Result::Err(());
            },
        };
        self.selected_animation = cloned;
        self.selected_action_name = String::from_str(action_name);
        Result::Ok(())
    }

    /// Select the default action, keeping the current variant.
    pub fn select_default_action(&mut self) -> (r: Result<(), ()>)
        requires
            old(self).wf(),
        ensures
            final(self).wf(),
            r is Ok <==> (old(self).selected_action_name@ == ACTION_NAME_DEFAULT@
                || spec_selectable(
                old(self).stock,
                old(self).selected_variant_name@,
                ACTION_NAME_DEFAULT@,
            )),
            r is Err ==> *final(self) == *old(self),
    {
        self.select_action(ACTION_NAME_DEFAULT)
    }
}

/// The frame output depends only on the sprite's fields: two sprites
/// with equal components emit equal tiles.
proof fn lemma_tick_upto_congruence(s1: Sprite, s2: Sprite, moment: int, k: int)
    requires
        s1.skin_id == s2.skin_id,
        s1.stock == s2.stock,
        s1.selected_animation == s2.selected_animation,
        s1.subsprites@ == s2.subsprites@,
    ensures
        spec_tick_upto(s1, moment, k) == spec_tick_upto(s2, moment, k),
    decreases k,
{
    if k > 0 {
        lemma_tick_upto_congruence(s1, s2, moment, k - 1);
    }
}

/// Law: attaching a sprite at a hook that held nothing and then
/// detaching that same hook restores the tile output of `tick` exactly.
/// (`s1` is the sprite after the attach, `s2` after the detach, as
/// their contracts describe them.)
pub proof fn lemma_attach_detach_restores_tick(
    s0: Sprite,
    s1: Sprite,
    s2: Sprite,
    hook: String,
    child: Sprite,
    moment: int,
)
    requires
        !has_hook(s0.subsprites@, hook@),
        s1.subsprites@ == s0.subsprites@.push((hook, child)),
        s1.skin_id == s0.skin_id,
        s1.stock == s0.stock,
        s1.selected_animation == s0.selected_animation,
        has_hook(s1.subsprites@, hook@),
        s2.subsprites@ == s1.subsprites@.remove(hook_index(s1.subsprites@, hook@)),
        s2.skin_id == s1.skin_id,
        s2.stock == s1.stock,
        s2.selected_animation == s1.selected_animation,
    ensures
        spec_tick(s2, moment) == spec_tick(s0, moment),
{
    let n = s0.subsprites@.len() as int;
    assert(s1.subsprites@[n].0@ == hook@);
    let j = hook_index(s1.subsprites@, hook@);
    assert(0 <= j < s1.subsprites@.len() && s1.subsprites@[j].0@ == hook@);
    if j < n {
        assert(s0.subsprites@[j].0@ == hook@);
        assert(false);
    }
    assert(j == n);
    assert(s2.subsprites@ =~= s0.subsprites@);
    lemma_tick_upto_congruence(
        s2,
        s0,
        moment,
        s0.selected_animation.draw_order@.len() as int,
    );
}

/// An exact copy of an animation: the copy's view equals the
/// original's.
pub fn clone_animation(a: &Animation) -> (r: Animation)
    ensures
        r@ == a@,
        r.name@ == a.name@,
        r.duration == a.duration,
        r.is_looped == a.is_looped,
        r.scale == a.scale,
        r.draw_order@ == a.draw_order@,
        r.bones@.len() == a.bones@.len(),
        forall|i: int|
            0 <= i < a.bones@.len() ==> (#[trigger] r.bones@[i]).poses@ == a.bones@[i].poses@
                && r.bones@[i].parent_index == a.bones@[i].parent_index && r.bones@[i].name@
                == a.bones@[i].name@,
        r.wf() == a.wf(),
{
    let mut bones: Vec<Bone> = Vec::new();
    let mut i: usize = 0;
    while i < a.bones.len()
        invariant
            0 <= i <= a.bones@.len(),
            bones@.len() == i as int,
            forall|k: int| 0 <= k < i ==> (#[trigger] bones@[k])@ == a.bones@[k]@,
        decreases a.bones@.len() - i,
    {
        let src = &a.bones[i];
        let bone = Bone {
            parent_index: src.get_parent_index(),
            poses: copy_pose_vec(&src.poses),
            name: src.name.clone(),
        };
        proof {
            assert(bone@ =~= a.bones@[i as int]@);
        }
        bones.push(bone);
        i = i + 1;
    }
    let mut draw_order: Vec<usize> = Vec::new();
    let mut k: usize = 0;
    while k < a.draw_order.len()
        invariant
            0 <= k <= a.draw_order@.len(),
            draw_order@ =~= a.draw_order@.subrange(0, k as int),
        decreases a.draw_order@.len() - k,
    {
        draw_order.push(a.draw_order[k]);
        k = k + 1;
    }
    proof {
        assert(draw_order@ =~= a.draw_order@);
    }
    let r = Animation {
        name: a.name.clone(),
        duration: a.duration,
        is_looped: a.is_looped,
        scale: a.scale,
        bones,
        draw_order,
    };
    proof {
        assert forall|i: int|
            0 <= i < a.bones@.len() implies (#[trigger] r.bones@[i]).poses@ == a.bones@[i].poses@
            && r.bones@[i].parent_index == a.bones@[i].parent_index && r.bones@[i].name@
            == a.bones@[i].name@ by {
            assert(r.bones@[i]@ == a.bones@[i]@);
        }
        assert(r@ =~~= a@);
        assert(r.wf() == a.wf()) by {
            if a.wf() {
                assert forall|i: int|
                    0 <= i < r.bones@.len() implies (#[trigger] r.bones@[i]).parent_index
                    matches Option::Some(p) ==> (p as int) < i by {
                    assert(a.bones@[i].parent_index == r.bones@[i].parent_index);
                }
                assert forall|i: int|
                    0 <= i < r.bones@.len() implies (#[trigger] r.bones@[i]).wf() && (
                r.bones@[i].poses@.len() >= 2 ==> r.bones@[i].poses@[r.bones@[i].poses@.len()
                    - 1].moment < r.duration) by {
                    assert(a.bones@[i].wf());
                    assert(a.bones@[i].poses@.len() >= 2 ==> a.bones@[i].poses@[a.bones@[
                    i].poses@.len() - 1].moment < a.duration);
                    assert(r.bones@[i].poses@ == a.bones@[i].poses@);
                }
                assert(r.wf());
            }
            if r.wf() {
                assert forall|i: int|
                    0 <= i < a.bones@.len() implies (#[trigger] a.bones@[i]).parent_index
                    matches Option::Some(p) ==> (p as int) < i by {
                    assert(a.bones@[i].parent_index == r.bones@[i].parent_index);
                }
                assert forall|i: int|
                    0 <= i < a.bones@.len() implies (#[trigger] a.bones@[i]).wf() && (
                a.bones@[i].poses@.len() >= 2 ==> a.bones@[i].poses@[a.bones@[i].poses@.len()
                    - 1].moment < a.duration) by {
                    assert(r.bones@[i].wf());
                    assert(r.bones@[i].poses@.len() >= 2 ==> r.bones@[i].poses@[r.bones@[
                    i].poses@.len() - 1].moment < r.duration);
                    assert(r.bones@[i].poses@ == a.bones@[i].poses@);
                }
                assert(a.wf());
            }
        }
    }
    r
}

fn copy_pose_vec(v: &Vec<crate::skeleton::Pose>) -> (r: Vec<crate::skeleton::Pose>)
    ensures
        r@ == v@,
{
    let mut r: Vec<crate::skeleton::Pose> = Vec::new();
    let mut i: usize = 0;
    while i < v.len()
        invariant
            0 <= i <= v@.len(),
            r@ =~= v@.subrange(0, i as int),
        decreases v@.len() - i,
    {
        r.push(v[i]);
        i = i + 1;
    }
    proof {
        assert(r@ =~= v@);
    }
    r
}

} // verus!
