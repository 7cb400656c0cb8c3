use vaultworn::{movement_axes, Entity, MoveAxes, MoveKeys, Point, Scene, Tags, UNIT};

const SECOND: u64 = 1_000_000_000;

fn keys(forward: bool, backward: bool, left: bool, right: bool) -> MoveKeys {
    MoveKeys { forward, backward, left, right }
}

fn count(scene: &Scene, pick: fn(&Tags) -> bool) -> usize {
    scene.entities.iter().filter(|e| pick(&e.tags)).count()
}

fn camera_of(scene: &Scene) -> Entity {
    *scene.entities.iter().find(|e| e.tags.camera).unwrap()
}

fn player_of(scene: &Scene) -> Entity {
    *scene.entities.iter().find(|e| e.tags.player).unwrap()
}

#[test]
fn startup_has_one_of_each_role() {
    let scene = Scene::startup();
    assert_eq!(scene.entities.len(), 4);
    assert_eq!(count(&scene, |t| t.player), 1);
    assert_eq!(count(&scene, |t| t.ground), 1);
    assert_eq!(count(&scene, |t| t.camera), 1);
    assert_eq!(count(&scene, |t| t.light), 1);
}

#[test]
fn startup_places_entities() {
    let scene = Scene::startup();
    let camera = camera_of(&scene);
    assert_eq!(camera.origin, Point { x: 0, y: 5 * UNIT, z: 10 * UNIT });
    assert_eq!(camera.facing, Some(Point { x: 0, y: 0, z: 0 }));
    let player = player_of(&scene);
    assert_eq!(player.origin, Point { x: 0, y: UNIT / 2, z: 0 });
    assert_eq!(player.facing, None);
    assert_eq!(player.yaw, 0);
    let sun = scene.entities.iter().find(|e| e.tags.light).unwrap();
    assert_eq!(sun.origin, Point { x: 4 * UNIT, y: 8 * UNIT, z: 4 * UNIT });
}

#[test]
fn setup_returns_slot_of_new_entity() {
    let mut scene = Scene::new();
    assert_eq!(scene.setup_scene(), 0);
    assert_eq!(scene.setup_camera(), 1);
    assert_eq!(scene.setup_player(), 2);
    assert_eq!(scene.setup_ground(), 3);
    assert!(scene.entities[1].tags.camera);
    assert!(scene.entities[2].tags.player);
    assert!(scene.entities[3].tags.ground);
}

#[test]
fn player_turns_one_radian_in_one_second() {
    let mut scene = Scene::startup();
    assert!(scene.rotate_player(SECOND));
    assert_eq!(player_of(&scene).yaw, 1_000_000_000);
}

#[test]
fn spin_is_additive() {
    let mut twice = Scene::startup();
    assert!(twice.rotate_player(300_000_000));
    assert!(twice.rotate_player(450_000_000));
    let mut once = Scene::startup();
    assert!(once.rotate_player(750_000_000));
    assert_eq!(twice.entities, once.entities);
}

#[test]
fn spin_leaves_others_alone() {
    let before = Scene::startup();
    let mut scene = Scene::startup();
    assert!(scene.rotate_player(SECOND));
    for (a, b) in before.entities.iter().zip(scene.entities.iter()) {
        if !a.tags.player {
            assert_eq!(a, b);
        }
    }
}

#[test]
fn spin_zero_time_changes_nothing() {
    let mut scene = Scene::startup();
    assert!(scene.rotate_player(0));
    assert_eq!(scene.entities, Scene::startup().entities);
}

#[test]
fn spin_that_would_overflow_skips_frame() {
    let mut scene = Scene::startup();
    assert!(scene.rotate_player(u64::MAX - 5));
    let kept = scene.entities.clone();
    assert!(!scene.rotate_player(6));
    assert_eq!(scene.entities, kept);
    assert!(scene.rotate_player(5));
    assert_eq!(player_of(&scene).yaw, u64::MAX);
}

#[test]
fn movement_axes_all_combinations() {
    for bits in 0u8..16 {
        let k = keys(bits & 1 != 0, bits & 2 != 0, bits & 4 != 0, bits & 8 != 0);
        let f = k.forward as i64 - k.backward as i64;
        let r = k.right as i64 - k.left as i64;
        assert_eq!(movement_axes(k), MoveAxes { forward: f, right: r });
    }
}

#[test]
fn opposite_keys_cancel() {
    assert_eq!(movement_axes(keys(true, true, false, false)), MoveAxes { forward: 0, right: 0 });
    assert_eq!(movement_axes(keys(false, false, true, true)), MoveAxes { forward: 0, right: 0 });
    assert_eq!(movement_axes(keys(true, true, true, true)), MoveAxes { forward: 0, right: 0 });
}

#[test]
fn camera_moves_by_speed_times_time() {
    for bits in 0u8..16 {
        let k = keys(bits & 1 != 0, bits & 2 != 0, bits & 4 != 0, bits & 8 != 0);
        let axes = movement_axes(k);
        let mut scene = Scene::startup();
        assert!(scene.camera_controls(k, 3 * SECOND / 2));
        let cam = camera_of(&scene);
        assert_eq!(cam.forward_travel, axes.forward * 7_500_000_000);
        assert_eq!(cam.right_travel, axes.right * 7_500_000_000);
        assert_eq!(cam.origin, Point { x: 0, y: 5 * UNIT, z: 10 * UNIT });
    }
}

#[test]
fn camera_forward_two_seconds() {
    let mut scene = Scene::startup();
    assert!(scene.camera_controls(keys(true, false, false, false), 2 * SECOND));
    let cam = camera_of(&scene);
    assert_eq!(cam.forward_travel, 10 * UNIT);
    assert_eq!(cam.right_travel, 0);
}

#[test]
fn camera_diagonal_is_not_normalised() {
    let mut scene = Scene::startup();
    assert!(scene.camera_controls(keys(true, false, false, true), 2 * SECOND));
    let cam = camera_of(&scene);
    assert_eq!(cam.forward_travel, 10 * UNIT);
    assert_eq!(cam.right_travel, 10 * UNIT);
}

#[test]
fn camera_backward_and_left() {
    let mut scene = Scene::startup();
    assert!(scene.camera_controls(keys(false, true, true, false), SECOND));
    let cam = camera_of(&scene);
    assert_eq!(cam.forward_travel, -5 * UNIT);
    assert_eq!(cam.right_travel, -5 * UNIT);
}

#[test]
fn camera_update_never_touches_player() {
    let mut scene = Scene::startup();
    assert!(scene.rotate_player(SECOND));
    let player = player_of(&scene);
    assert!(scene.camera_controls(keys(true, false, true, false), SECOND));
    assert_eq!(player_of(&scene), player);
}

#[test]
fn camera_that_is_player_is_not_moved() {
    let mut scene = Scene::new();
    scene.setup_player();
    scene.entities[0].tags.camera = true;
    let before = scene.entities.clone();
    assert!(scene.camera_controls(keys(true, false, false, true), SECOND));
    assert_eq!(scene.entities, before);
}

#[test]
fn camera_that_would_overflow_skips_frame() {
    let dt = i64::MAX as u64 / 5;
    let mut scene = Scene::startup();
    assert!(scene.camera_controls(keys(true, false, false, false), dt));
    assert_eq!(camera_of(&scene).forward_travel, 9_223_372_036_854_775_805);
    let kept = scene.entities.clone();
    assert!(!scene.camera_controls(keys(true, false, false, false), 1));
    assert_eq!(scene.entities, kept);
    assert!(scene.camera_controls(keys(false, true, false, false), dt));
    assert_eq!(camera_of(&scene).forward_travel, 0);
}
