use studigo::scene::layouts;
use studigo::scene::{Layer, Position, Scene, Transition, TransitionType, FULL_LEVEL_BITS};

#[test]
fn test_scene_creation() {
    let scene = Scene::new("test", "Test Scene", 1920, 1080);
    assert_eq!(scene.id, "test");
    assert_eq!(scene.resolution.width, 1920);
    assert_eq!(scene.layers.len(), 0);
}

#[test]
fn test_single_layout() {
    let scene = layouts::single("camera", 1920, 1080);
    assert_eq!(scene.layers.len(), 1);
    assert_eq!(scene.layers[0].source_id, "camera");
}

#[test]
fn test_pip_layout() {
    let scene = layouts::pip("camera", "screen", 1920, 1080, 320, 180, Position::new(1600, 900));
    assert_eq!(scene.layers.len(), 2);
}

#[test]
fn test_transition() {
    let fade = Transition::fade();
    assert_eq!(fade.transition_type, TransitionType::Fade);
    assert_eq!(fade.duration_ms, 500);
}

#[test]
fn layer_new_is_visible_at_full_level() {
    let layer = Layer::new("cam", -5, 7, 100, 50);
    assert_eq!(layer.position, Position::new(-5, 7));
    assert_eq!(layer.size.width, 100);
    assert!(layer.visible);
    assert_eq!(f32::from_bits(layer.opacity_bits), 1.0);
    assert_eq!(f32::from_bits(layer.volume_bits), 1.0);
    assert_eq!(layer.opacity_bits, FULL_LEVEL_BITS);
}

#[test]
fn side_by_side_splits_width() {
    let scene = layouts::side_by_side("left", "right", 1921, 1080);
    assert_eq!(scene.id, "side_by_side");
    assert_eq!(scene.layers.len(), 2);
    assert_eq!(scene.layers[0].size.width, 960);
    assert_eq!(scene.layers[1].position.x, 960);
    assert_eq!(scene.layers[1].source_id, "right");
}

#[test]
fn grid_places_four_quadrants() {
    let scene = layouts::grid_2x2(&["a", "b", "c", "d"], 1920, 1080);
    assert_eq!(scene.name, "2x2 Grid");
    let positions: Vec<(i32, i32)> = scene.layers.iter().map(|l| (l.position.x, l.position.y)).collect();
    assert_eq!(positions, vec![(0, 0), (960, 0), (0, 540), (960, 540)]);
    assert_eq!(scene.layers[3].source_id, "d");
    assert_eq!(scene.layers[3].size.height, 540);
}

#[test]
fn pip_inset_position() {
    let scene = layouts::pip("camera", "screen", 1920, 1080, 320, 180, Position::new(1600, 900));
    assert_eq!(scene.layers[1].position, Position::new(1600, 900));
    assert_eq!(scene.layers[1].size.width, 320);
    assert_eq!(scene.layers[0].size.height, 1080);
}

#[test]
fn transition_cut_and_default() {
    let cut = Transition::cut();
    assert_eq!(cut.transition_type, TransitionType::Cut);
    assert_eq!(cut.duration_ms, 0);
    assert_eq!(TransitionType::default(), TransitionType::Cut);
    let mut scene = Scene::new("s", "S", 10, 10);
    scene.set_transition(Transition::new(TransitionType::Zoom, 40));
    assert_eq!(scene.transition, Some(Transition::new(TransitionType::Zoom, 40)));
    let copy = scene.clone();
    assert_eq!(copy.transition, scene.transition);
    assert_eq!(copy.id, "s");
}
