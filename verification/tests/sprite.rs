use edgin_around::fx::FX_ONE;
use edgin_around::skeleton::{Animation, Bone, Image, Pose};
use edgin_around::sprite::Sprite;
use edgin_around::stock::Stock;
use edgin_around::tile::Tile;

const S: i64 = FX_ONE;

fn make_animation(name: &str, offset: i64) -> Animation {
    let bones = vec![
        Bone::new(None, vec![Pose::new(0, Some(0), (offset, 0), (S, S), 0)], "body".to_string()),
        Bone::new(
            Some(0),
            vec![Pose::new(0, Some(1), (offset + 5 * S, 0), (S, S), 0)],
            "hand".to_string(),
        ),
    ];
    Animation::new(name.to_string(), 4 * S, true, S, bones).unwrap()
}

fn make_stock() -> Stock {
    let animations = vec![
        ("anim_idle".to_string(), make_animation("anim_idle", 0)),
        ("anim_walk".to_string(), make_animation("anim_walk", 100 * S)),
        ("anim_armed".to_string(), make_animation("anim_armed", 200 * S)),
        ("anim_held".to_string(), make_animation("anim_held", 300 * S)),
    ];
    let selection = vec![
        (
            "default".to_string(),
            vec![
                ("idle".to_string(), "anim_idle".to_string()),
                ("walk".to_string(), "anim_walk".to_string()),
            ],
        ),
        ("armed".to_string(), vec![("idle".to_string(), "anim_armed".to_string())]),
        ("held".to_string(), vec![("idle".to_string(), "anim_held".to_string())]),
        ("strict".to_string(), vec![("march".to_string(), "anim_walk".to_string())]),
    ];
    let images = vec![
        Image::new((0, 0), (2 * S, 2 * S)),
        Image::new((S, S), (2 * S, 4 * S)),
    ];
    Stock::new(animations, selection, images)
}

fn tiles_equal(a: &[Tile], b: &[Tile]) -> bool {
    a.len() == b.len()
        && a.iter().zip(b.iter()).all(|(x, y)| {
            x.id == y.id && x.points == y.points
        })
}

#[test]
fn new_sprite_plays_the_default_idle_animation() {
    let sprite = Sprite::new(3, make_stock());
    assert_eq!(sprite.get_selected_variant_name(), "default");
    assert_eq!(sprite.get_selected_action_name(), "idle");
    assert_eq!(sprite.get_animation_duration(), 4 * S);
    assert!(sprite.is_looped());
    assert_eq!(sprite.get_max_num_layers(), 2);
}

#[test]
fn select_variant_switches_and_fails_without_side_effects() {
    let mut sprite = Sprite::new(3, make_stock());
    assert!(sprite.select_variant("armed").is_ok());
    assert_eq!(sprite.get_selected_variant_name(), "armed");
    assert_eq!(sprite.get_selected_action_name(), "idle");

    // The strict variant has no entry for the current action: an
    // error, and the selection stays.
    assert!(sprite.select_variant("strict").is_err());
    assert_eq!(sprite.get_selected_variant_name(), "armed");
    assert_eq!(sprite.get_selected_action_name(), "idle");

    // An unknown variant name fails outright; only the _or_default
    // selectors fall back.
    assert!(sprite.select_variant("ghost").is_err());
    assert_eq!(sprite.get_selected_variant_name(), "armed");

    // A mapped action switches directly.
    let mut walker = Sprite::new(3, make_stock());
    assert!(walker.select_action("walk").is_ok());
    assert_eq!(walker.get_selected_action_name(), "walk");

    // An unmapped action fails without side effects.
    assert!(walker.select_action("dance").is_err());
    assert_eq!(walker.get_selected_action_name(), "walk");
}

#[test]
fn select_or_default_falls_back_but_keeps_the_requested_name() {
    let mut sprite = Sprite::new(3, make_stock());
    // The ghost variant is absent; the default variant's idle animation
    // is played, the requested variant name is kept, the action stays.
    assert!(sprite.select_variant_or_default("ghost").is_ok());
    assert_eq!(sprite.get_selected_variant_name(), "ghost");
    assert_eq!(sprite.get_selected_action_name(), "idle");

    let mut sprite = Sprite::new(3, make_stock());
    assert!(sprite.select_action_or_default("dance").is_ok());
    assert_eq!(sprite.get_selected_action_name(), "dance");
    assert_eq!(sprite.get_selected_variant_name(), "default");
}

#[test]
fn tick_emits_one_tile_per_imaged_bone() {
    let sprite = Sprite::new(3, make_stock());
    let tiles = sprite.tick(0);
    assert_eq!(tiles.len(), 2);
    assert_eq!(tiles[0].id.skin_id, 3);
    assert_eq!(tiles[0].id.image_id, 0);
    assert_eq!(tiles[1].id.image_id, 1);
    // The body tile's first corner sits at the pivot-anchored origin.
    assert_eq!(tiles[0].points[0].get_x(), 0);
    assert_eq!(tiles[0].points[0].get_y(), -2 * S);
    // The hand tile is carried by the body's transform plus its own.
    assert_eq!(tiles[1].points[0].get_x(), 5 * S - S);
}

#[test]
fn attach_and_detach_restore_the_tile_output() {
    let mut sprite = Sprite::new(3, make_stock());
    let before = sprite.tick(S);
    let child = Sprite::new(7, make_stock());
    sprite.attach_sprite("hand".to_string(), child);
    let during = sprite.tick(S);
    assert!(during.len() > before.len());
    sprite.detach_sprite("hand");
    let after = sprite.tick(S);
    assert!(tiles_equal(&before, &after));
}

#[test]
fn attached_child_tiles_replace_the_hook_bone_tile() {
    let mut sprite = Sprite::new(3, make_stock());
    let child = Sprite::new(7, make_stock());
    sprite.attach_sprite("hand".to_string(), child);
    let tiles = sprite.tick(0);
    // One body tile plus the child's two tiles; the hand's own image is
    // not drawn while a child hangs at the hook.
    assert_eq!(tiles.len(), 3);
    assert_eq!(tiles[0].id.skin_id, 3);
    assert_eq!(tiles[1].id.skin_id, 7);
    assert_eq!(tiles[2].id.skin_id, 7);
}

#[test]
fn reattaching_replaces_the_previous_child() {
    let mut sprite = Sprite::new(3, make_stock());
    sprite.attach_sprite("hand".to_string(), Sprite::new(7, make_stock()));
    sprite.attach_sprite("hand".to_string(), Sprite::new(8, make_stock()));
    let tiles = sprite.tick(0);
    assert_eq!(tiles.len(), 3);
    assert_eq!(tiles[1].id.skin_id, 8);
}
