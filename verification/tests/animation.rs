use edgin_around::errors::LoadError;
use edgin_around::fx::{FX_HALF_PI, FX_ONE, FX_TWO_PI};
use edgin_around::saml::{
    Parser, SamlAnimation, SamlBone, SamlBonePose, SamlHoverArea, SamlInteraction, SamlMuscle,
    SamlMusclePose, SamlSkeleton, SamlSource, SamlSpec,
};
use edgin_around::skeleton::{Animation, Bone, Pose};

const S: i64 = FX_ONE;

fn pose(moment: i64, x: i64) -> Pose {
    Pose::new(moment, None, (x, 0), (S, S), 0)
}

fn bone(parent_index: Option<usize>, poses: Vec<Pose>, name: &str) -> Bone {
    Bone::new(parent_index, poses, name.to_string())
}

#[test]
fn single_pose_bone_ignores_the_queried_moment() {
    let b = bone(None, vec![pose(0, 100 * S)], "root");
    let duration = 4 * S;
    let (m1, i1) = b.calc_state_at(0, duration);
    let (m2, i2) = b.calc_state_at(3 * S, duration);
    let (m3, i3) = b.calc_state_at(17 * S, duration);
    assert_eq!(m1, m2);
    assert_eq!(m1, m3);
    assert_eq!(i1, i2);
    assert_eq!(i1, i3);
    assert_eq!(m1.m02, 100 * S);
}

#[test]
fn keyframe_moment_returns_the_keyframe_unblended() {
    let b = bone(None, vec![pose(0, 100 * S), pose(2 * S, 200 * S)], "root");
    let duration = 4 * S;
    let (at_first, _) = b.calc_state_at(0, duration);
    assert_eq!(at_first.m02, 100 * S);
    let (at_second, _) = b.calc_state_at(2 * S, duration);
    assert_eq!(at_second.m02, 200 * S);
}

#[test]
fn wraparound_blends_against_the_duration() {
    let b = bone(None, vec![pose(0, 100 * S), pose(2 * S, 200 * S)], "root");
    let duration = 4 * S;
    // Between the keyframes: halfway from 100 to 200.
    let (mid, _) = b.calc_state_at(S, duration);
    assert_eq!(mid.m02, 150 * S);
    // Past the last keyframe the upper bound is the duration, not the
    // first keyframe's moment: at t = 3 the weights are (1/2, 1/2).
    let (wrapped, _) = b.calc_state_at(3 * S, duration);
    assert_eq!(wrapped.m02, 150 * S);
    // The image comes from the earlier keyframe of the pair.
    let with_images = bone(
        None,
        vec![
            Pose::new(0, Some(4), (0, 0), (S, S), 0),
            Pose::new(2 * S, Some(9), (0, 0), (S, S), 0),
        ],
        "root",
    );
    let (_, img_mid) = with_images.calc_state_at(S, duration);
    assert_eq!(img_mid, Some(4));
    let (_, img_wrapped) = with_images.calc_state_at(3 * S, duration);
    assert_eq!(img_wrapped, Some(9));
}

#[test]
fn compiled_bones_have_parents_before_children() {
    // Authoring order: grandchild, child, root.
    let bones = vec![
        bone(Some(1), vec![pose(0, 0)], "hand"),
        bone(Some(2), vec![pose(0, 0)], "arm"),
        bone(None, vec![pose(0, 0)], "body"),
    ];
    let animation = Animation::new("walk".to_string(), 4 * S, true, S, bones).unwrap();
    let order = animation.get_draw_order().clone();
    assert_eq!(order.len(), 3);
    // The paint order is a permutation of the bone indices.
    let mut seen = vec![false; 3];
    for &d in &order {
        assert!(d < 3);
        assert!(!seen[d]);
        seen[d] = true;
    }
    // Every compiled bone's parent comes before it.
    for (i, b) in animation.get_bones().iter().enumerate() {
        if let Some(p) = b.get_parent_index() {
            assert!(p < i);
        }
    }
    // The names follow the bones through the reorder.
    assert_eq!(animation.get_bones()[order[0]].get_name(), "hand");
    assert_eq!(animation.get_bones()[order[1]].get_name(), "arm");
    assert_eq!(animation.get_bones()[order[2]].get_name(), "body");
}

#[test]
fn cyclic_parents_are_rejected() {
    let bones = vec![
        bone(Some(1), vec![pose(0, 0)], "a"),
        bone(Some(0), vec![pose(0, 0)], "b"),
    ];
    let r = Animation::new("spin".to_string(), 4 * S, true, S, bones);
    assert!(matches!(r, Err(LoadError::UnrootedBone)));
}

fn empty_pose() -> SamlBonePose {
    SamlBonePose {
        position_x: None,
        position_y: None,
        scale_x: None,
        scale_y: None,
        angle: None,
        source_id: None,
    }
}

fn sample_spec() -> SamlSpec {
    SamlSpec {
        interaction: SamlInteraction {
            hover_area: SamlHoverArea { left: -S, right: S, top: S, bottom: -S },
        },
        sources: vec![SamlSource {
            id: "img_head".to_string(),
            name: "head".to_string(),
            size_x: 32,
            size_y: 64,
            pivot_x: 16 * S,
            pivot_y: 0,
        }],
        skeletons: vec![SamlSkeleton {
            id: "person".to_string(),
            scale: S,
            bones: vec![
                SamlBone { id: "body".to_string(), parent: None, pose: empty_pose() },
                SamlBone {
                    id: "head".to_string(),
                    parent: Some("body".to_string()),
                    pose: SamlBonePose {
                        position_x: Some(10 * S),
                        position_y: None,
                        scale_x: None,
                        scale_y: None,
                        angle: Some(S / 4),
                        source_id: Some("img_head".to_string()),
                    },
                },
            ],
        }],
        animations: vec![SamlAnimation {
            id: "idle".to_string(),
            skeleton_id: "person".to_string(),
            is_looped: true,
            length: 4 * S,
            keys: vec![("start".to_string(), 0), ("late".to_string(), 2 * S)],
            muscles: vec![SamlMuscle {
                bone_id: "head".to_string(),
                timeline: vec![
                    SamlMusclePose {
                        key: "start".to_string(),
                        position_x: None,
                        position_y: None,
                        scale_x: None,
                        scale_y: None,
                        angle: None,
                        source_id: None,
                    },
                    SamlMusclePose {
                        key: "late".to_string(),
                        position_x: Some(20 * S),
                        position_y: None,
                        scale_x: None,
                        scale_y: None,
                        angle: None,
                        source_id: None,
                    },
                ],
            }],
        }],
    }
}

#[test]
fn compiler_merges_defaults_into_keyframes() {
    let parser = Parser::new(sample_spec());
    let skeleton = parser.to_skeleton().unwrap();
    assert_eq!(skeleton.images.len(), 1);
    assert_eq!(skeleton.images[0].size_x, 32 * S);
    assert_eq!(skeleton.images[0].size_y, 64 * S);
    assert_eq!(skeleton.animations.len(), 1);
    let (name, animation) = &skeleton.animations[0];
    assert_eq!(name, "idle");
    assert_eq!(animation.get_duration(), 4 * S);
    assert!(animation.is_looped());
    assert_eq!(animation.get_num_layers(), 2);

    let order = animation.get_draw_order();
    let body = &animation.get_bones()[order[0]];
    let head = &animation.get_bones()[order[1]];
    assert_eq!(body.get_name(), "body");
    assert_eq!(head.get_name(), "head");
    // The head keeps its keyed track: the first keyframe inherits the
    // default x offset and angle, the second overrides the offset.
    assert_eq!(head.poses.len(), 2);
    assert_eq!(head.poses[0].moment, 0);
    assert_eq!(head.poses[0].position_x, 10 * S);
    assert_eq!(head.poses[1].moment, 2 * S);
    assert_eq!(head.poses[1].position_x, 20 * S);
    // A quarter turn becomes half pi, up to the fixed-point rounding of
    // the turn constant.
    let expected_angle = ((S / 4) as i128 * FX_TWO_PI as i128 / S as i128) as i64;
    assert_eq!(head.poses[0].angle, expected_angle);
    assert!((expected_angle - FX_HALF_PI).abs() <= 1);
    // The keyframes inherit the default image.
    assert_eq!(head.poses[0].image_id, Some(0));
    // The body has a single static default pose.
    assert_eq!(body.poses.len(), 1);
    assert_eq!(body.poses[0].position_x, 0);
    assert_eq!(body.poses[0].scale_x, S);
}

#[test]
fn unresolved_references_are_fatal() {
    let mut spec = sample_spec();
    spec.skeletons[0].bones[1].pose.source_id = Some("img_ghost".to_string());
    let r = Parser::new(spec).to_skeleton();
    assert!(matches!(r, Err(LoadError::NotExistingSource)));

    let mut spec = sample_spec();
    spec.animations[0].muscles[0].timeline[0].key = "never".to_string();
    let r = Parser::new(spec).to_skeleton();
    assert!(matches!(r, Err(LoadError::NotExistingPose)));

    let mut spec = sample_spec();
    spec.animations[0].skeleton_id = "robot".to_string();
    let r = Parser::new(spec).to_skeleton();
    assert!(matches!(r, Err(LoadError::NotExistingSkeleton)));

    let mut spec = sample_spec();
    spec.skeletons[0].bones[1].parent = Some("tail".to_string());
    let r = Parser::new(spec).to_skeleton();
    assert!(matches!(r, Err(LoadError::NotExistingBone)));

    let mut spec = sample_spec();
    spec.animations[0].keys[1].1 = 9 * S;
    let r = Parser::new(spec).to_skeleton();
    assert!(matches!(r, Err(LoadError::MalformedTimeline)));

    let mut spec = sample_spec();
    spec.skeletons[0].scale = 0;
    let r = Parser::new(spec).to_skeleton();
    assert!(matches!(r, Err(LoadError::MalformedSkeleton)));
}

#[test]
fn parser_lists_the_source_file_names() {
    let parser = Parser::new(sample_spec());
    let names = parser.get_sources();
    assert_eq!(names.len(), 1);
    assert_eq!(names[0], "head");
}
