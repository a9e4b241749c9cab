//! Scene and actor registry: procedural terrain elevation, the set of
//! live actors, hero selection, and proximity queries.

use vstd::prelude::*;

use crate::coords::{Point, FX_TWO};
use crate::fx::{
    fx_add, fx_div, fx_mul, fx_sub, spec_fx_add, spec_fx_div, spec_fx_mul, spec_fx_sub, FX_ONE,
    FX_PI,
};
use crate::ids::ActorId;
use crate::names::str_eq;
use crate::trig::{cos_fx, sin_fx, spec_cos_fx, spec_sin_fx};

verus! {

/// Coefficient of the hills terrain field, 0.006 in fixed point.
pub const FX_HILLS_COEFF: i64 = 6291;

/// Coefficient of the mountain-ranges terrain field, 0.012 in fixed
/// point.
pub const FX_RANGES_COEFF: i64 = 12583;

/// Coefficient of the continents terrain field, 0.018 in fixed point.
pub const FX_CONTINENTS_COEFF: i64 = 18874;

/// The number ten, in fixed point.
pub const FX_TEN: i64 = 10485760;

/// The number fifty, in fixed point.
pub const FX_FIFTY: i64 = 52428800;

/// The radius an unconfigured scene starts with, 1000 in fixed point.
pub const FX_DEFAULT_RADIUS: i64 = 1048576000;

/// The closed set of procedural terrain kinds.
#[derive(Clone, Copy, Debug, PartialEq, Eq, Structural)]
pub enum TerrainVariant {
    Hills,
    Ranges,
    Continents,
}

/// One additive terrain contribution: a kind and an origin point.
#[derive(Clone, Copy, Debug, PartialEq, Eq, Structural)]
pub struct TerrainData {
    pub variant: TerrainVariant,
    pub origin: Point,
}

/// What one terrain entry contributes at a spherical point: a closed-form
/// trigonometric field of the two angles, scaled by the radius.
pub open spec fn spec_terrain_evaluate(
    variant: TerrainVariant,
    theta: int,
    phi: int,
    radius: int,
) -> int {
    match variant {
        TerrainVariant::Hills => spec_fx_mul(
            spec_fx_mul(
                spec_fx_mul(
                    spec_fx_mul(
                        spec_fx_mul(FX_HILLS_COEFF as int, radius),
                        spec_fx_sub(spec_fx_div(theta, FX_PI as int), FX_ONE as int),
                    ),
                    spec_sin_fx(spec_fx_mul(FX_FIFTY as int, phi)),
                ),
                spec_fx_sub(spec_fx_div(theta, FX_PI as int), FX_TWO as int),
            ),
            spec_sin_fx(spec_fx_mul(FX_FIFTY as int, theta)),
        ),
        TerrainVariant::Ranges => spec_fx_mul(
            spec_fx_mul(
                spec_fx_mul(FX_RANGES_COEFF as int, radius),
                spec_cos_fx(spec_fx_add(spec_fx_mul(FX_TEN as int, theta), FX_PI as int)),
            ),
            spec_cos_fx(spec_fx_mul(FX_TEN as int, phi)),
        ),
        TerrainVariant::Continents => spec_fx_mul(
            spec_fx_mul(spec_fx_mul(FX_CONTINENTS_COEFF as int, radius), spec_sin_fx(theta)),
            spec_sin_fx(phi),
        ),
    }
}

impl TerrainData {
    /// The additive contribution of this terrain entry at a point.
    pub fn evaluate(&self, point: &Point, radius: i64) -> (r: i64)
        ensures
            r as int == spec_terrain_evaluate(
                self.variant,
                point.theta as int,
                point.phi as int,
                radius as int,
            ),
    {
        match self.variant {
            TerrainVariant::Hills => {
                let t_over_pi = fx_div(point.theta, FX_PI);
                fx_mul(
                    fx_mul(
                        fx_mul(
                            fx_mul(
                                fx_mul(FX_HILLS_COEFF, radius),
                                fx_sub(t_over_pi, FX_ONE),
                            ),
                            sin_fx(fx_mul(FX_FIFTY, point.phi)),
                        ),
                        fx_sub(t_over_pi, FX_TWO),
                    ),
                    sin_fx(fx_mul(FX_FIFTY, point.theta)),
                )
            },
            TerrainVariant::Ranges => {
                fx_mul(
                    fx_mul(
                        fx_mul(FX_RANGES_COEFF, radius),
                        cos_fx(fx_add(fx_mul(FX_TEN, point.theta), FX_PI)),
                    ),
                    cos_fx(fx_mul(FX_TEN, point.phi)),
                )
            },
            TerrainVariant::Continents => {
                fx_mul(
                    fx_mul(fx_mul(FX_CONTINENTS_COEFF, radius), sin_fx(point.theta)),
                    sin_fx(point.phi),
                )
            },
        }
    }
}

/// The terrain kind a name denotes, if any; an unrecognized name denotes
/// none and is silently ignored.
pub open spec fn spec_terrain_variant_of(name: Seq<char>) -> Option<TerrainVariant> {
    if name == "hills"@ {
        Option::Some(TerrainVariant::Hills)
    } else if name == "ranges"@ {
        Option::Some(TerrainVariant::Ranges)
    } else if name == "continents"@ {
        Option::Some(TerrainVariant::Continents)
    } else {
        Option::None
    }
}

/// The radius plus the contributions of the first `n` terrain entries.
pub open spec fn spec_elevation_upto(
    radius: int,
    terrain: Seq<TerrainData>,
    theta: int,
    phi: int,
    n: int,
) -> int
    decreases n,
{
    if n <= 0 {
        radius
    } else {
        let prev = spec_elevation_upto(radius, terrain, theta, phi, n - 1);
        if n - 1 < terrain.len() {
            spec_fx_add(
                prev,
                spec_terrain_evaluate(terrain[n - 1].variant, theta, phi, radius),
            )
        } else {
            prev
        }
    }
}

/// The additive procedural terrain field: the undeformed radius plus
/// each terrain entry's contribution.
#[derive(Clone, Debug)]
pub struct ElevationFunction {
    pub radius: i64,
    pub terrain: Vec<TerrainData>,
}

impl ElevationFunction {
    /// An elevation function with no terrain.
    pub fn new(radius: i64) -> (r: ElevationFunction)
        ensures
            r.radius == radius,
            r.terrain@.len() == 0,
    {
        ElevationFunction { radius, terrain: Vec::new() }
    }

    /// The undeformed sphere radius.
    pub fn get_radius(&self) -> (r: i64)
        ensures
            r == self.radius,
    {
        self.radius
    }

    /// Add a terrain entry by kind name; an unrecognized kind is a
    /// silent no-op.
    pub fn add_terrain(&mut self, name: &str, theta: i64, phi: i64)
        ensures
            final(self).radius == old(self).radius,
            match spec_terrain_variant_of(name@) {
                Option::Some(v) => final(self).terrain@ == old(self).terrain@.push(
                    TerrainData { variant: v, origin: Point { theta, phi } },
                ),
                Option::None => final(self).terrain@ == old(self).terrain@,
            },
    {
        let origin = Point::new(theta, phi);
        let variant = if str_eq(name, "hills") {
            TerrainVariant::Hills
        } else if str_eq(name, "ranges") {
            TerrainVariant::Ranges
        } else if str_eq(name, "continents") {
            TerrainVariant::Continents
        } else {
            return ;
        };
        self.terrain.push(TerrainData { variant, origin });
    }

    /// The elevation at a point: the radius plus every terrain entry's
    /// contribution.  With no terrain added, the result is exactly the
    /// radius.
    pub fn evaluate(&self, point: &Point) -> (r: i64)
        ensures
            r as int == spec_elevation_upto(
                self.radius as int,
                self.terrain@,
                point.theta as int,
                point.phi as int,
                self.terrain@.len() as int,
            ),
            self.terrain@.len() == 0 ==> r == self.radius,
    {
        let mut result = self.radius;
        let mut i: usize = 0;
        while i < self.terrain.len()
            invariant
                0 <= i <= self.terrain@.len(),
                result as int == spec_elevation_upto(
                    self.radius as int,
                    self.terrain@,
                    point.theta as int,
                    point.phi as int,
                    i as int,
                ),
            decreases self.terrain@.len() - i,
        {
            let contribution = self.terrain[i].evaluate(point, self.radius);
            result = fx_add(result, contribution);
            i = i + 1;
        }
        result
    }
}

impl Default for ElevationFunction {
    /// An elevation function for a plain sphere of the default radius.
    fn default() -> (r: ElevationFunction)
        ensures
            r.radius == FX_DEFAULT_RADIUS,
            r.terrain@.len() == 0,
    {
        ElevationFunction { radius: FX_DEFAULT_RADIUS, terrain: Vec::new() }
    }
}

/// One live entity: an id, an entity name, and an optional position.
/// An actor without a position is not drawable.
#[derive(Clone, Debug)]
pub struct Actor {
    pub id: ActorId,
    pub entity_name: String,
    pub position: Option<Point>,
}

impl Actor {
    /// Pack an actor.
    pub fn new(id: ActorId, entity_name: String, position: Option<Point>) -> (r: Actor)
        ensures
            r.id == id,
            r.entity_name == entity_name,
            r.position == position,
    {
        Actor { id, entity_name, position }
    }

    /// The actor's id.
    pub fn get_id(&self) -> (r: ActorId)
        ensures
            r == self.id,
    {
        self.id
    }

    /// The actor's entity name.
    pub fn get_entity_name(&self) -> (r: &str)
        ensures
            r@ == self.entity_name@,
    {
        self.entity_name.as_str()
    }

    /// The actor's position, if it has one.
    pub fn get_position(&self) -> (r: Option<Point>)
        ensures
            r == self.position,
    {
        self.position
    }

    /// Whether the actor has a position and so can be drawn.
    pub fn is_visible(&self) -> (r: bool)
        ensures
            r == (self.position is Some),
    {
        self.position.is_some()
    }

    /// Place the actor at a position.
    pub fn set_position(&mut self, position: Point)
        ensures
            final(self).position == Option::Some(position),
            final(self).id == old(self).id,
            final(self).entity_name == old(self).entity_name,
    {
        self.position = Option::Some(position);
    }

    /// Move the actor along a great circle; a hidden actor stays hidden.
    pub fn move_by(&mut self, distance: i64, bearing: i64, radius: i64)
        requires
            radius > 0,
        ensures
            final(self).id == old(self).id,
            final(self).entity_name == old(self).entity_name,
            old(self).position is None ==> final(self).position == old(self).position,
            old(self).position matches Option::Some(p) ==> ({
                let c = crate::coords::spec_to_geographical(p.theta as int, p.phi as int);
                let mv = crate::coords::spec_moved_by(
                    c.0,
                    c.1,
                    distance as int,
                    bearing as int,
                    radius as int,
                );
                let q = crate::coords::spec_to_spherical(mv.0, mv.1);
                final(self).position matches Option::Some(np) && np.theta as int == q.0
                    && np.phi as int == q.1
            }),
    {
        match self.position {
            Option::Some(p) => {
                let np = p.moved_by(distance, bearing, radius);
                self.position = Option::Some(np);
            },
            Option::None => {},
        }
    }

    /// Clear the actor's position without removing the actor.
    pub fn hide_position(&mut self)
        ensures
            final(self).position is None,
            final(self).id == old(self).id,
            final(self).entity_name == old(self).entity_name,
    {
        self.position = Option::None;
    }
}

/// An exact copy of an actor.
fn copy_actor(a: &Actor) -> (r: Actor)
    ensures
        r == *a,
{
    Actor { id: a.id, entity_name: a.entity_name.clone(), position: a.position }
}

/// Whether an id occurs among the actors.
pub open spec fn has_actor(s: Seq<Actor>, id: ActorId) -> bool {
    exists|i: int| 0 <= i < s.len() && (#[trigger] s[i].id) == id
}

/// The index of an id among the actors.
pub open spec fn actor_index(s: Seq<Actor>, id: ActorId) -> int {
    choose|i: int| 0 <= i < s.len() && (#[trigger] s[i].id) == id
}

/// Insert or overwrite one actor, keyed by its id.
pub open spec fn spec_upsert(s: Seq<Actor>, a: Actor) -> Seq<Actor> {
    if has_actor(s, a.id) {
        s.update(actor_index(s, a.id), a)
    } else {
        s.push(a)
    }
}

/// Insert or overwrite the first `n` given actors, in order.
pub open spec fn spec_upsert_upto(s: Seq<Actor>, items: Seq<Actor>, n: int) -> Seq<Actor>
    decreases n,
{
    if n <= 0 {
        s
    } else {
        let prev = spec_upsert_upto(s, items, n - 1);
        if n - 1 < items.len() {
            spec_upsert(prev, items[n - 1])
        } else {
            prev
        }
    }
}

/// Remove the actor with one id, if present.
pub open spec fn spec_remove_actor(s: Seq<Actor>, id: ActorId) -> Seq<Actor> {
    if has_actor(s, id) {
        s.remove(actor_index(s, id))
    } else {
        s
    }
}

/// Remove the actors with the first `n` given ids, in order.
pub open spec fn spec_remove_upto(s: Seq<Actor>, ids: Seq<ActorId>, n: int) -> Seq<Actor>
    decreases n,
{
    if n <= 0 {
        s
    } else {
        let prev = spec_remove_upto(s, ids, n - 1);
        if n - 1 < ids.len() {
            spec_remove_actor(prev, ids[n - 1])
        } else {
            prev
        }
    }
}

/// Hide the actor with one id, if present.
pub open spec fn spec_hide_actor(s: Seq<Actor>, id: ActorId) -> Seq<Actor> {
    if has_actor(s, id) {
        let i = actor_index(s, id);
        s.update(i, Actor { position: Option::None, ..s[i] })
    } else {
        s
    }
}

/// Hide the actors with the first `n` given ids, in order.
pub open spec fn spec_hide_upto(s: Seq<Actor>, ids: Seq<ActorId>, n: int) -> Seq<Actor>
    decreases n,
{
    if n <= 0 {
        s
    } else {
        let prev = spec_hide_upto(s, ids, n - 1);
        if n - 1 < ids.len() {
            spec_hide_actor(prev, ids[n - 1])
        } else {
            prev
        }
    }
}

/// Whether actor `i` is positioned and strictly closer to the reference
/// point than `max_distance`.
pub open spec fn spec_qualifies(
    s: Seq<Actor>,
    i: int,
    ref_theta: int,
    ref_phi: int,
    max_distance: int,
    radius: int,
) -> bool {
    &&& 0 <= i < s.len()
    &&& s[i].position is Some
    &&& spec_actor_distance(s, i, ref_theta, ref_phi, radius) < max_distance
}

/// The great-circle distance from the reference point to actor `i`.
pub open spec fn spec_actor_distance(
    s: Seq<Actor>,
    i: int,
    ref_theta: int,
    ref_phi: int,
    radius: int,
) -> int {
    match s[i].position {
        Option::Some(p) => Point::spec_distance(
            ref_theta,
            ref_phi,
            p.theta as int,
            p.phi as int,
            radius,
        ),
        Option::None => 0,
    }
}

/// Whether an id is the id of some qualifying actor.
pub open spec fn spec_is_qualifying_id(
    s: Seq<Actor>,
    id: ActorId,
    ref_theta: int,
    ref_phi: int,
    max_distance: int,
    radius: int,
) -> bool {
    exists|i: int|
        spec_qualifies(s, i, ref_theta, ref_phi, max_distance, radius) && id == (
        #[trigger] s[i].id)
}

/// The scene: the elevation field, the hero selection, the live actors
/// in insertion order, and the configuration flag.
#[derive(Clone, Debug)]
pub struct Scene {
    pub elevation: ElevationFunction,
    pub hero_actor_id: ActorId,
    pub actors: Vec<Actor>,
    pub is_ready: bool,
}

impl Scene {
    /// Whether the scene is well formed: actor ids are unique and the
    /// radius is nonnegative.
    pub open spec fn wf(&self) -> bool {
        &&& forall|i: int, j: int|
            0 <= i < j < self.actors@.len() ==> (#[trigger] self.actors@[i].id) != (
            #[trigger] self.actors@[j].id)
        &&& self.elevation.radius >= 0
    }

    /// An unconfigured scene: default elevation, hero id zero, no
    /// actors.
    pub fn new() -> (r: Scene)
        ensures
            r.elevation.radius == FX_DEFAULT_RADIUS,
            r.elevation.terrain@.len() == 0,
            r.hero_actor_id == 0,
            r.actors@.len() == 0,
            !r.is_ready,
            r.wf(),
    {
        Scene {
            elevation: ElevationFunction::default(),
            hero_actor_id: 0,
            actors: Vec::new(),
            is_ready: false,
        }
    }

    /// Whether the scene has been configured.
    pub fn is_ready(&self) -> (r: bool)
        ensures
            r == self.is_ready,
    {
        self.is_ready
    }

    /// The undeformed sphere radius.
    pub fn get_radius(&self) -> (r: i64)
        ensures
            r == self.elevation.radius,
    {
        self.elevation.get_radius()
    }

    /// The elevation at a point.
    pub fn get_elevation(&self, point: &Point) -> (r: i64)
        ensures
            r as int == spec_elevation_upto(
                self.elevation.radius as int,
                self.elevation.terrain@,
                point.theta as int,
                point.phi as int,
                self.elevation.terrain@.len() as int,
            ),
    {
        self.elevation.evaluate(point)
    }

    /// The hero actor's id.
    pub fn get_hero_id(&self) -> (r: ActorId)
        ensures
            r == self.hero_actor_id,
    {
        self.hero_actor_id
    }

    /// The actor with an id, if present.
    pub fn get_actor(&self, actor_id: ActorId) -> (r: Option<&Actor>)
        requires
            self.wf(),
        ensures
            (r is Some) == has_actor(self.actors@, actor_id),
            r matches Some(a) ==> *a == self.actors@[actor_index(self.actors@, actor_id)],
    {
        match self.find_actor_position(actor_id) {
            Option::Some(i) => Option::Some(&self.actors[i]),
            Option::None => Option::None,
        }
    }

    /// The index of an actor id, if present.
    fn find_actor_position(&self, actor_id: ActorId) -> (r: Option<usize>)
        requires
            self.wf(),
        ensures
            (r is Some) == has_actor(self.actors@, actor_id),
            r matches Some(i) ==> (i as int) == actor_index(self.actors@, actor_id) && (i as int)
                < self.actors@.len() && self.actors@[i as int].id == actor_id,
    {
        let mut i: usize = 0;
        while i < self.actors.len()
            invariant
                self.wf(),
                0 <= i <= self.actors@.len(),
                forall|j: int| 0 <= j < i ==> (#[trigger] self.actors@[j].id) != actor_id,
            decreases self.actors@.len() - i,
        {
            if self.actors[i].id == actor_id {
                proof {
                    let j = actor_index(self.actors@, actor_id);
                    assert(0 <= j < self.actors@.len() && self.actors@[j].id == actor_id);
                    assert(j == i as int);
                }
                return Option::Some(i);
            }
            i = i + 1;
        }
        Option::None
    }

    /// The actors, in insertion order.
    pub fn get_actors(&self) -> (r: &Vec<Actor>)
        ensures
            r == &self.actors,
    {
        &self.actors
    }

    /// The hero actor's position.  Calling this without a positioned
    /// hero actor is a caller contract violation.
    pub fn get_focus_point(&self) -> (r: Point)
        requires
            self.wf(),
            has_actor(self.actors@, self.hero_actor_id),
            self.actors@[actor_index(self.actors@, self.hero_actor_id)].position is Some,
        ensures
            Option::Some(r) == self.actors@[actor_index(
                self.actors@,
                self.hero_actor_id,
            )].position,
    {
        match self.find_actor_position(self.hero_actor_id) {
            Option::Some(i) => {
                match self.actors[i].position {
                    Option::Some(p) => p,
                    Option::None => {
                        proof {
                            assert(false);
                        }
                        Point::new(0, 0)
                    },
                }
            },
            Option::None => {
                proof {
                    assert(false);
                }
                Point::new(0, 0)
            },
        }
    }

    /// Configure the scene with a hero and an elevation field.
    pub fn configure(&mut self, hero_actor_id: ActorId, elevation: ElevationFunction)
        requires
            old(self).wf(),
            elevation.radius >= 0,
        ensures
            final(self).hero_actor_id == hero_actor_id,
            final(self).elevation == elevation,
            final(self).is_ready,
            final(self).actors == old(self).actors,
            final(self).wf(),
    {
        self.hero_actor_id = hero_actor_id;
        self.elevation = elevation;
        self.is_ready = true;
    }

    /// Insert the given actors, overwriting any actor that already has
    /// the same id.
    pub fn create_actors(&mut self, actors: &Vec<Actor>)
        requires
            old(self).wf(),
        ensures
            final(self).wf(),
            final(self).actors@ == spec_upsert_upto(
                old(self).actors@,
                actors@,
                actors@.len() as int,
            ),
            final(self).elevation == old(self).elevation,
            final(self).hero_actor_id == old(self).hero_actor_id,
            final(self).is_ready == old(self).is_ready,
    {
        let mut c: usize = 0;
        while c < actors.len()
            invariant
                self.wf(),
                0 <= c <= actors@.len(),
                self.actors@ == spec_upsert_upto(old(self).actors@, actors@, c as int),
                self.elevation == old(self).elevation,
                self.hero_actor_id == old(self).hero_actor_id,
                self.is_ready == old(self).is_ready,
            decreases actors@.len() - c,
        {
            let item = copy_actor(&actors[c]);
            match self.find_actor_position(item.id) {
                Option::Some(i) => {
                    self.actors.set(i, item);
                },
                Option::None => {
                    self.actors.push(item);
                    proof {
                        assert forall|i: int, j: int|
                            0 <= i < j < self.actors@.len() implies (
                        #[trigger] self.actors@[i].id) != (#[trigger] self.actors@[j].id) by {
                            if j == self.actors@.len() - 1 {
                                assert(!has_actor(old(self).actors@, actors@[c as int].id)
                                    || true);
                            }
                        }
                    }
                },
            }
            c = c + 1;
        }
    }

    /// Remove the actors with the given ids; a missing id is a no-op.
    pub fn delete_actors(&mut self, actor_ids: &Vec<ActorId>)
        requires
            old(self).wf(),
        ensures
            final(self).wf(),
            final(self).actors@ == spec_remove_upto(
                old(self).actors@,
                actor_ids@,
                actor_ids@.len() as int,
            ),
            final(self).elevation == old(self).elevation,
            final(self).hero_actor_id == old(self).hero_actor_id,
            final(self).is_ready == old(self).is_ready,
    {
        let mut c: usize = 0;
        while c < actor_ids.len()
            invariant
                self.wf(),
                0 <= c <= actor_ids@.len(),
                self.actors@ == spec_remove_upto(old(self).actors@, actor_ids@, c as int),
                self.elevation == old(self).elevation,
                self.hero_actor_id == old(self).hero_actor_id,
                self.is_ready == old(self).is_ready,
            decreases actor_ids@.len() - c,
        {
            let id = actor_ids[c];
            match self.find_actor_position(id) {
                Option::Some(i) => {
                    let ghost before = self.actors@;
                    self.actors.remove(i);
                    proof {
                        assert forall|i1: int, j1: int|
                            0 <= i1 < j1 < self.actors@.len() implies (
                        #[trigger] self.actors@[i1].id) != (#[trigger] self.actors@[j1].id) by {
                            if j1 < i as int {
                            } else if i1 < i as int {
                                assert(self.actors@[i1] == before[i1]);
                                assert(self.actors@[j1] == before[j1 + 1]);
                            } else {
                                assert(self.actors@[i1] == before[i1 + 1]);
                                assert(self.actors@[j1] == before[j1 + 1]);
                            }
                        }
                    }
                },
                Option::None => {},
            }
            c = c + 1;
        }
    }

    /// Clear the position of the actors with the given ids; a missing id
    /// is a no-op.
    pub fn hide_actors(&mut self, actor_ids: &Vec<ActorId>)
        requires
            old(self).wf(),
        ensures
            final(self).wf(),
            final(self).actors@ == spec_hide_upto(
                old(self).actors@,
                actor_ids@,
                actor_ids@.len() as int,
            ),
            final(self).elevation == old(self).elevation,
            final(self).hero_actor_id == old(self).hero_actor_id,
            final(self).is_ready == old(self).is_ready,
    {
        let mut c: usize = 0;
        while c < actor_ids.len()
            invariant
                self.wf(),
                0 <= c <= actor_ids@.len(),
                self.actors@ == spec_hide_upto(old(self).actors@, actor_ids@, c as int),
                self.elevation == old(self).elevation,
                self.hero_actor_id == old(self).hero_actor_id,
                self.is_ready == old(self).is_ready,
            decreases actor_ids@.len() - c,
        {
            let id = actor_ids[c];
            match self.find_actor_position(id) {
                Option::Some(i) => {
                    let replacement = Actor {
                        id: self.actors[i].id,
                        entity_name: self.actors[i].entity_name.clone(),
                        position: Option::None,
                    };
                    self.actors.set(i, replacement);
                },
                Option::None => {},
            }
            c = c + 1;
        }
    }

    /// Place the actor with an id at a position; a missing id is a
    /// no-op.
    pub fn set_actor_position(&mut self, actor_id: ActorId, position: Point)
        requires
            old(self).wf(),
        ensures
            final(self).wf(),
            final(self).elevation == old(self).elevation,
            final(self).hero_actor_id == old(self).hero_actor_id,
            final(self).is_ready == old(self).is_ready,
            !has_actor(old(self).actors@, actor_id) ==> final(self).actors@ == old(self).actors@,
            has_actor(old(self).actors@, actor_id) ==> ({
                let i = actor_index(old(self).actors@, actor_id);
                final(self).actors@ == old(self).actors@.update(
                    i,
                    Actor { position: Option::Some(position), ..old(self).actors@[i] },
                )
            }),
    {
        match self.find_actor_position(actor_id) {
            Option::Some(i) => {
                let replacement = Actor {
                    id: self.actors[i].id,
                    entity_name: self.actors[i].entity_name.clone(),
                    position: Option::Some(position),
                };
                self.actors.set(i, replacement);
            },
            Option::None => {},
        }
    }

    /// Move the actor with an id along a great circle; a missing id or
    /// a hidden actor is a no-op.
    pub fn move_actor_by(&mut self, actor_id: ActorId, distance: i64, bearing: i64, radius: i64)
        requires
            old(self).wf(),
            radius > 0,
        ensures
            final(self).wf(),
            final(self).elevation == old(self).elevation,
            final(self).hero_actor_id == old(self).hero_actor_id,
            final(self).is_ready == old(self).is_ready,
            !has_actor(old(self).actors@, actor_id) ==> final(self).actors@ == old(self).actors@,
            has_actor(old(self).actors@, actor_id) ==> ({
                let i = actor_index(old(self).actors@, actor_id);
                match old(self).actors@[i].position {
                    Option::None => final(self).actors@ == old(self).actors@,
                    Option::Some(p) => {
                        let c = crate::coords::spec_to_geographical(p.theta as int, p.phi as int);
                        let mv = crate::coords::spec_moved_by(
                            c.0,
                            c.1,
                            distance as int,
                            bearing as int,
                            radius as int,
                        );
                        let q = crate::coords::spec_to_spherical(mv.0, mv.1);
                        final(self).actors@ == old(self).actors@.update(
                            i,
                            Actor {
                                position: Option::Some(
                                    Point { theta: q.0 as i64, phi: q.1 as i64 },
                                ),
                                ..old(self).actors@[i]
                            },
                        )
                    },
                }
            }),
    {
        match self.find_actor_position(actor_id) {
            Option::Some(i) => {
                match self.actors[i].position {
                    Option::Some(p) => {
                        let np = p.moved_by(distance, bearing, radius);
                        let replacement = Actor {
                            id: self.actors[i].id,
                            entity_name: self.actors[i].entity_name.clone(),
                            position: Option::Some(np),
                        };
                        self.actors.set(i, replacement);
                    },
                    Option::None => {},
                }
            },
            Option::None => {},
        }
    }

    /// The ids of all positioned actors strictly closer to the reference
    /// point than `max_distance`, ascending by distance, ties broken by
    /// insertion order.
    #[verifier::rlimit(100)]
    pub fn find_closest_actors(&self, reference_position: &Point, max_distance: i64) -> (r: Vec<
        ActorId,
    >)
        requires
            self.wf(),
        ensures
            forall|k: int|
                0 <= k < r@.len() ==> spec_is_qualifying_id(
                    self.actors@,
                    #[trigger] r@[k],
                    reference_position.theta as int,
                    reference_position.phi as int,
                    max_distance as int,
                    self.elevation.radius as int,
                ),
            forall|i: int|
                spec_qualifies(
                    self.actors@,
                    i,
                    reference_position.theta as int,
                    reference_position.phi as int,
                    max_distance as int,
                    self.elevation.radius as int,
                ) ==> r@.contains(#[trigger] self.actors@[i].id),
            forall|k1: int, k2: int|
                0 <= k1 < k2 < r@.len() ==> #[trigger] r@[k1] != #[trigger] r@[k2],
            forall|k1: int, k2: int|
                0 <= k1 < k2 < r@.len() ==> ({
                    let i1 = actor_index(self.actors@, #[trigger] r@[k1]);
                    let i2 = actor_index(self.actors@, #[trigger] r@[k2]);
                    let rt = reference_position.theta as int;
                    let rp = reference_position.phi as int;
                    let rad = self.elevation.radius as int;
                    spec_actor_distance(self.actors@, i1, rt, rp, rad) < spec_actor_distance(
                        self.actors@,
                        i2,
                        rt,
                        rp,
                        rad,
                    ) || (spec_actor_distance(self.actors@, i1, rt, rp, rad)
                        == spec_actor_distance(self.actors@, i2, rt, rp, rad) && i1 < i2)
                }),
    {
        let ghost rt = reference_position.theta as int;
        let ghost rp = reference_position.phi as int;
        let ghost rad = self.elevation.radius as int;
        let ghost maxd = max_distance as int;
        let n = self.actors.len();
        let radius = self.elevation.get_radius();
        let mut sorted: Vec<(usize, i64)> = Vec::new();
        let mut i: usize = 0;
        while i < n
            invariant
                self.wf(),
                rt == reference_position.theta as int,
                rp == reference_position.phi as int,
                rad == self.elevation.radius as int,
                maxd == max_distance as int,
                radius == self.elevation.radius,
                n == self.actors@.len(),
                0 <= i <= n,
                forall|k: int|
                    0 <= k < sorted@.len() ==> spec_qualifies(
                        self.actors@,
                        (#[trigger] sorted@[k]).0 as int,
                        rt,
                        rp,
                        maxd,
                        rad,
                    ) && (sorted@[k].0 as int) < i as int && sorted@[k].1 as int
                        == spec_actor_distance(self.actors@, sorted@[k].0 as int, rt, rp, rad),
                forall|ii: int|
                    0 <= ii < i && spec_qualifies(self.actors@, ii, rt, rp, maxd, rad)
                        ==> exists|k: int|
                        0 <= k < sorted@.len() && (#[trigger] sorted@[k]).0 as int == ii,
                forall|k1: int, k2: int|
                    0 <= k1 < k2 < sorted@.len() ==> ({
                        let a = #[trigger] sorted@[k1];
                        let b = #[trigger] sorted@[k2];
                        a.1 < b.1 || (a.1 == b.1 && a.0 < b.0)
                    }),
            decreases n - i,
        {
            match self.actors[i].position {
                Option::Some(p) => {
                    let d = Point::distance(reference_position, &p, radius);
                    if d < max_distance {
                        let ghost before = sorted@;
                        let mut j: usize = 0;
                        while j < sorted.len() && sorted[j].1 <= d
                            invariant
                                sorted@ == before,
                                0 <= j <= sorted@.len(),
                                forall|k: int| 0 <= k < j ==> (#[trigger] sorted@[k]).1 <= d,
                                j < sorted@.len() ==> (j == 0 || sorted@[j - 1].1 <= d),
                            decreases sorted@.len() - j,
                        {
                            j = j + 1;
                        }
                        proof {
                            if (j as int) < sorted@.len() {
                                assert(sorted@[j as int].1 > d);
                            }
                        }
                        sorted.insert(j, (i, d));
                        proof {
                            assert(sorted@ == before.insert(j as int, (i, d)));
                            assert forall|k1: int, k2: int|
                                0 <= k1 < k2 < sorted@.len() implies ({
                                let a = #[trigger] sorted@[k1];
                                let b = #[trigger] sorted@[k2];
                                a.1 < b.1 || (a.1 == b.1 && a.0 < b.0)
                            }) by {
                                if k1 < j as int && k2 < j as int {
                                    assert(sorted@[k1] == before[k1]);
                                    assert(sorted@[k2] == before[k2]);
                                } else if k1 < j as int && k2 == j as int {
                                    assert(sorted@[k1] == before[k1]);
                                    assert(sorted@[k2] == (i, d));
                                    assert(before[k1].1 <= d);
                                } else if k1 < j as int && k2 > j as int {
                                    assert(sorted@[k1] == before[k1]);
                                    assert(sorted@[k2] == before[k2 - 1]);
                                } else if k1 == j as int {
                                    assert(sorted@[k1] == (i, d));
                                    assert(sorted@[k2] == before[k2 - 1]);
                                    assert(before[k2 - 1].1 > d);
                                } else {
                                    assert(sorted@[k1] == before[k1 - 1]);
                                    assert(sorted@[k2] == before[k2 - 1]);
                                }
                            }
                            assert forall|ii: int|
                                0 <= ii < i + 1 && spec_qualifies(
                                    self.actors@,
                                    ii,
                                    rt,
                                    rp,
                                    maxd,
                                    rad,
                                ) implies exists|k: int|
                                0 <= k < sorted@.len() && (#[trigger] sorted@[k]).0 as int
                                    == ii by {
                                if ii == i as int {
                                    assert(sorted@[j as int].0 as int == ii);
                                } else {
                                    let k0 = choose|k: int|
                                        0 <= k < before.len() && (#[trigger] before[k]).0 as int
                                            == ii;
                                    if k0 < j as int {
                                        assert(sorted@[k0].0 as int == ii);
                                    } else {
                                        assert(sorted@[k0 + 1].0 as int == ii);
                                    }
                                }
                            }
                        }
                    }
                },
                Option::None => {},
            }
            i = i + 1;
        }
        let mut result: Vec<ActorId> = Vec::new();
        let mut k: usize = 0;
        while k < sorted.len()
            invariant
                self.wf(),
                rt == reference_position.theta as int,
                rp == reference_position.phi as int,
                rad == self.elevation.radius as int,
                maxd == max_distance as int,
                n == self.actors@.len(),
                0 <= k <= sorted@.len(),
                result@.len() == k,
                forall|kk: int|
                    0 <= kk < sorted@.len() ==> spec_qualifies(
                        self.actors@,
                        (#[trigger] sorted@[kk]).0 as int,
                        rt,
                        rp,
                        maxd,
                        rad,
                    ) && sorted@[kk].1 as int == spec_actor_distance(
                        self.actors@,
                        sorted@[kk].0 as int,
                        rt,
                        rp,
                        rad,
                    ),
                forall|ii: int|
                    spec_qualifies(self.actors@, ii, rt, rp, maxd, rad) ==> exists|kk: int|
                        0 <= kk < sorted@.len() && (#[trigger] sorted@[kk]).0 as int == ii,
                forall|k1: int, k2: int|
                    0 <= k1 < k2 < sorted@.len() ==> ({
                        let a = #[trigger] sorted@[k1];
                        let b = #[trigger] sorted@[k2];
                        a.1 < b.1 || (a.1 == b.1 && a.0 < b.0)
                    }),
                forall|kk: int|
                    0 <= kk < k ==> #[trigger] result@[kk] == self.actors@[sorted@[kk].0
                        as int].id,
            decreases sorted@.len() - k,
        {
            let idx = sorted[k].0;
            result.push(self.actors[idx].id);
            k = k + 1;
        }
        proof {
            assert(rt == reference_position.theta as int);
            assert(rp == reference_position.phi as int);
            assert(rad == self.elevation.radius as int);
            assert(maxd == max_distance as int);
            assert forall|kk: int|
                0 <= kk < result@.len() implies spec_is_qualifying_id(
                self.actors@,
                #[trigger] result@[kk],
                reference_position.theta as int,
                reference_position.phi as int,
                max_distance as int,
                self.elevation.radius as int,
            ) by {
                let w = sorted@[kk].0 as int;
                assert(spec_qualifies(
                    self.actors@,
                    w,
                    reference_position.theta as int,
                    reference_position.phi as int,
                    max_distance as int,
                    self.elevation.radius as int,
                ) && result@[kk] == self.actors@[w].id);
            }
            assert forall|ii: int|
                spec_qualifies(
                    self.actors@,
                    ii,
                    reference_position.theta as int,
                    reference_position.phi as int,
                    max_distance as int,
                    self.elevation.radius as int,
                ) implies result@.contains(#[trigger] self.actors@[ii].id) by {
                assert(spec_qualifies(self.actors@, ii, rt, rp, maxd, rad));
                let kk = choose|kk: int|
                    0 <= kk < sorted@.len() && (#[trigger] sorted@[kk]).0 as int == ii;
                assert(result@[kk] == self.actors@[ii].id);
            }
            assert forall|k1: int, k2: int|
                0 <= k1 < k2 < result@.len() implies #[trigger] result@[k1]
                != #[trigger] result@[k2] by {
                let i1 = sorted@[k1].0 as int;
                let i2 = sorted@[k2].0 as int;
                assert(i1 != i2);
                assert(self.actors@[i1].id != self.actors@[i2].id) by {
                    if i1 < i2 {
                    } else {
                    }
                }
            }
            assert forall|k1: int, k2: int|
                0 <= k1 < k2 < result@.len() implies ({
                let i1 = actor_index(self.actors@, #[trigger] result@[k1]);
                let i2 = actor_index(self.actors@, #[trigger] result@[k2]);
                spec_actor_distance(self.actors@, i1, rt, rp, rad) < spec_actor_distance(
                    self.actors@,
                    i2,
                    rt,
                    rp,
                    rad,
                ) || (spec_actor_distance(self.actors@, i1, rt, rp, rad) == spec_actor_distance(
                    self.actors@,
                    i2,
                    rt,
                    rp,
                    rad,
                ) && i1 < i2)
            }) by {
                let s1 = sorted@[k1].0 as int;
                let s2 = sorted@[k2].0 as int;
                assert(result@[k1] == self.actors@[s1].id);
                assert(result@[k2] == self.actors@[s2].id);
                let i1 = actor_index(self.actors@, result@[k1]);
                assert(0 <= i1 < self.actors@.len() && self.actors@[i1].id == result@[k1]);
                assert(i1 == s1);
                let i2 = actor_index(self.actors@, result@[k2]);
                assert(0 <= i2 < self.actors@.len() && self.actors@[i2].id == result@[k2]);
                assert(i2 == s2);
            }
        }
        result
    }
}

} // verus!
