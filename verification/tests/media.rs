use edgin_around::media::{sprites_path, Sprites, Textures};

#[test]
fn sprites_path_joins_the_resource_root() {
    assert_eq!(sprites_path("assets"), "assets/sprites");
}

#[test]
fn default_textures_hold_no_handles() {
    let t = Textures::default();
    assert_eq!(t.water, 0);
    assert_eq!(t.grass, 0);
    let u = Textures::new(5, 9);
    assert_eq!(u.water, 5);
    assert_eq!(u.grass, 9);
}

#[test]
fn load_skin_registers_loaded_images_only() {
    let mut sprites = Sprites::new("assets/sprites".to_string());
    let names = vec!["head".to_string(), "arm".to_string(), "leg".to_string()];
    // The host could not load the middle image.
    let textures = vec![Some(11), None, Some(13)];
    let skin_id = sprites.load_skin("oak", &names, &textures);
    assert_eq!(skin_id, 0);

    let head = sprites.get_resource_id(&("oak".to_string(), "head".to_string())).unwrap();
    assert_eq!(head.skin_id, 0);
    assert_eq!(head.image_id, 0);
    assert_eq!(sprites.get_texture_id(&head), Some(11));

    assert!(sprites.get_resource_id(&("oak".to_string(), "arm".to_string())).is_none());

    let leg = sprites.get_resource_id(&("oak".to_string(), "leg".to_string())).unwrap();
    assert_eq!(leg.image_id, 2);
}

#[test]
fn reloading_a_skin_supersedes_its_mappings() {
    let mut sprites = Sprites::new("assets/sprites".to_string());
    let names = vec!["head".to_string()];
    let first = sprites.load_skin("oak", &names, &vec![Some(11)]);
    let second = sprites.load_skin("oak", &names, &vec![Some(21)]);
    assert_eq!(first, 0);
    assert_eq!(second, 1);
    // The lookup returns the most recent registration.
    let head = sprites.get_resource_id(&("oak".to_string(), "head".to_string())).unwrap();
    assert_eq!(head.skin_id, 1);
    assert_eq!(sprites.get_texture_id(&head), Some(21));
}

#[test]
fn load_skin_if_needed_is_idempotent() {
    let mut sprites = Sprites::new("assets/sprites".to_string());
    let names = vec!["head".to_string()];
    let textures = vec![Some(11)];
    let first = sprites.load_skin_if_needed("oak", &names, &textures);
    let again = sprites.load_skin_if_needed("oak", &names, &textures);
    assert_eq!(first, again);
    let other = sprites.load_skin_if_needed("pine", &names, &textures);
    assert_eq!(other, 1);
}
