use edgin_around::coords::Point;
use edgin_around::fx::FX_ONE;
use edgin_around::scene::{Actor, ElevationFunction, Scene};

const S: f64 = FX_ONE as f64;

fn fx(v: f64) -> i64 {
    (v * S).round() as i64
}

fn rad(turns_of_pi: f64) -> i64 {
    fx(turns_of_pi * std::f64::consts::PI)
}

#[test]
fn find_closest_actors() {
    let mut scene = Scene::new();
    scene.create_actors(&vec![
        Actor::new(0, "0".to_string(), Some(Point::new(rad(0.00), rad(0.01)))),
        Actor::new(1, "1".to_string(), Some(Point::new(rad(0.05), rad(0.05)))),
        Actor::new(2, "2".to_string(), None),
        Actor::new(3, "3".to_string(), Some(Point::new(rad(0.01), rad(0.02)))),
        Actor::new(4, "4".to_string(), Some(Point::new(rad(0.06), rad(0.06)))),
        Actor::new(5, "5".to_string(), Some(Point::new(rad(0.02), rad(0.03)))),
    ]);

    let expected = vec![0, 3, 5];
    let actual = scene.find_closest_actors(&Point::new(0, 0), fx(100.0));

    assert_eq!(actual, expected);
}

#[test]
fn create_overwrites_and_delete_is_idempotent() {
    let mut scene = Scene::new();
    scene.create_actors(&vec![
        Actor::new(7, "oak".to_string(), None),
        Actor::new(7, "pine".to_string(), Some(Point::new(1, 2))),
    ]);
    assert_eq!(scene.get_actors().len(), 1);
    let actor = scene.get_actor(7).unwrap();
    assert_eq!(actor.get_entity_name(), "pine");
    assert!(actor.is_visible());

    scene.delete_actors(&vec![42]);
    assert_eq!(scene.get_actors().len(), 1);
    scene.delete_actors(&vec![7]);
    assert_eq!(scene.get_actors().len(), 0);
    scene.delete_actors(&vec![7]);
    assert_eq!(scene.get_actors().len(), 0);
}

#[test]
fn hide_clears_position_without_removing() {
    let mut scene = Scene::new();
    scene.create_actors(&vec![Actor::new(3, "elf".to_string(), Some(Point::new(5, 6)))]);
    scene.hide_actors(&vec![3]);
    assert_eq!(scene.get_actors().len(), 1);
    assert!(!scene.get_actor(3).unwrap().is_visible());
    scene.hide_actors(&vec![99]);
    assert_eq!(scene.get_actors().len(), 1);
}

#[test]
fn focus_point_returns_hero_position() {
    let mut scene = Scene::new();
    let p = Point::new(rad(0.25), rad(0.5));
    scene.create_actors(&vec![Actor::new(9, "hero".to_string(), Some(p))]);
    scene.configure(9, ElevationFunction::new(fx(1000.0)));
    assert!(scene.is_ready());
    assert_eq!(scene.get_hero_id(), 9);
    let focus = scene.get_focus_point();
    assert_eq!(focus, p);
}

#[test]
fn elevation_without_terrain_is_exactly_the_radius() {
    let radius = fx(123.5);
    let elevation = ElevationFunction::new(radius);
    assert_eq!(elevation.evaluate(&Point::new(rad(0.3), rad(1.1))), radius);
    assert_eq!(elevation.evaluate(&Point::new(0, 0)), radius);
    assert_eq!(elevation.evaluate(&Point::new(rad(0.999), rad(1.999))), radius);
}

#[test]
fn unknown_terrain_kind_is_a_silent_no_op() {
    let radius = fx(1000.0);
    let mut elevation = ElevationFunction::new(radius);
    elevation.add_terrain("volcano", rad(0.2), rad(0.4));
    assert_eq!(elevation.evaluate(&Point::new(rad(0.37), rad(0.71))), radius);
}

#[test]
fn known_terrain_kind_deforms_the_field() {
    let radius = fx(1000.0);
    let mut elevation = ElevationFunction::new(radius);
    elevation.add_terrain("continents", rad(0.2), rad(0.4));
    let at_equator = elevation.evaluate(&Point::new(rad(0.5), rad(0.5)));
    // 0.018 * radius * sin(pi/2) * sin(pi/2) = 18, well away from zero.
    let delta = (at_equator - radius).abs() as f64 / S;
    assert!((delta - 18.0).abs() < 0.1, "delta = {}", delta);
    // At the pole the contribution vanishes.
    let at_pole = elevation.evaluate(&Point::new(0, rad(0.5)));
    assert!(((at_pole - radius).abs() as f64 / S) < 0.01);
}

#[test]
fn scene_level_positioning_reaches_owned_actors() {
    let mut scene = Scene::new();
    scene.create_actors(&vec![Actor::new(4, "cart".to_string(), None)]);
    let p = Point::new(rad(0.5), rad(0.25));
    scene.set_actor_position(4, p);
    assert_eq!(scene.get_actor(4).unwrap().get_position(), Some(p));

    let radius = fx(1000.0);
    scene.move_actor_by(4, fx(100.0), 0, radius);
    let np = scene.get_actor(4).unwrap().get_position().unwrap();
    let expected_theta = rad(0.5) - fx(0.1);
    assert!((np.theta - expected_theta).abs() < 5000, "theta = {}", np.theta);

    // A missing id is a no-op for both operations.
    scene.set_actor_position(99, p);
    scene.move_actor_by(99, fx(1.0), 0, radius);
    assert_eq!(scene.get_actors().len(), 1);
}

#[test]
fn move_by_updates_position_along_the_bearing() {
    let mut actor = Actor::new(1, "walker".to_string(), Some(Point::new(rad(0.5), rad(0.25))));
    let radius = fx(1000.0);
    actor.move_by(fx(100.0), 0, radius);
    let np = actor.get_position().unwrap();
    // Moving north from the equator reduces theta by distance / radius.
    let expected_theta = rad(0.5) - fx(0.1);
    assert!((np.theta - expected_theta).abs() < 5000, "theta = {}", np.theta);
    assert!((np.phi - rad(0.25)).abs() < 5000, "phi = {}", np.phi);
}
