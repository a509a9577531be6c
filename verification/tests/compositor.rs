use studigo::compositor::{scene_change, Compositor, CompositorBuilder, CompositorError, SceneChange};
use studigo::frame::Frame;
use studigo::scene::layouts;
use studigo::scene::{Layer, Scene, Transition};

#[test]
fn test_compositor_creation() {
    let compositor = Compositor::new(1920, 1080);
    assert_eq!(compositor.output_width(), 1920);
    assert_eq!(compositor.output_height(), 1080);
}

#[test]
fn test_compositor_with_scene() {
    let scene = layouts::single("camera", 1920, 1080);
    let compositor = Compositor::with_scene(scene);
    assert!(compositor.scene().is_some());
}

#[test]
fn test_register_source() {
    let mut compositor = Compositor::new(1920, 1080);
    compositor.register_source("camera".to_string());
    compositor.register_source("screen".to_string());
    assert_eq!(compositor.source_count(), 2);
}

#[test]
fn test_push_and_get_frame() {
    let mut compositor = Compositor::new(640, 480);
    compositor.register_source("camera".to_string());

    let frame = Frame::new(640, 480, "camera");
    compositor.push_frame("camera", frame).unwrap();

    let retrieved = compositor.get_frame("camera");
    assert!(retrieved.is_some());
}

#[test]
fn test_composite_single_source() {
    let scene = layouts::single("camera", 640, 480);
    let mut compositor = Compositor::with_scene(scene);
    compositor.register_source("camera".to_string());

    let frame = Frame::from_data(vec![255u8; 640 * 480 * 3], 640, 480, "camera");
    compositor.push_frame("camera", frame).unwrap();

    // Compositing draws the layers chosen here over the regions computed
    // here; the pixel blending itself is floating point.
    let result = compositor.layers_to_composite();
    assert!(result.is_ok());
    let layers = result.unwrap();
    assert_eq!(layers.len(), 1);
    let (layer, drawn) = &layers[0];
    assert_eq!(layer.source_id, "camera");
    assert_eq!(drawn.data, vec![255u8; 640 * 480 * 3]);
    assert!(compositor.region_computable(layer));
    assert_eq!(compositor.layer_region(layer), (0, 0, 640, 480));
}

#[test]
fn scene_change_follows_the_transition() {
    let mut to = Scene::new("t", "T", 8, 8);
    assert!(matches!(scene_change(&to), Err(CompositorError::NoActiveScene)));
    to.set_transition(Transition::fade());
    assert!(matches!(scene_change(&to), Ok(SceneChange::Crossfade)));
    to.set_transition(Transition::cut());
    assert!(matches!(scene_change(&to), Ok(SceneChange::Switch)));
}

#[test]
fn test_compositor_builder() {
    let compositor = CompositorBuilder::new()
        .resolution(1920, 1080)
        .add_source("camera".to_string())
        .add_source("screen".to_string())
        .build();

    assert_eq!(compositor.output_width(), 1920);
    assert_eq!(compositor.source_count(), 2);
}

#[test]
fn push_to_unregistered_source_fails() {
    let mut compositor = Compositor::new(4, 4);
    match compositor.push_frame("ghost", Frame::new(1, 1, "ghost")) {
        Err(CompositorError::SourceNotFound(id)) => assert_eq!(id, "ghost"),
        other => panic!("unexpected {:?}", other),
    }
    assert!(compositor.get_frame("ghost").is_none());
}

#[test]
fn pushed_frame_is_returned_and_isolated() {
    let mut compositor = Compositor::new(4, 4);
    compositor.register_source("a".to_string());
    compositor.register_source("b".to_string());
    compositor.push_frame("a", Frame::from_data(vec![9, 8, 7], 1, 1, "a")).unwrap();
    assert_eq!(compositor.get_frame("a").unwrap().data, vec![9, 8, 7]);
    assert!(compositor.get_frame("b").is_none());
    compositor.push_frame("a", Frame::from_data(vec![1, 2, 3], 1, 1, "a")).unwrap();
    assert_eq!(compositor.get_frame("a").unwrap().data, vec![1, 2, 3]);
}

#[test]
fn register_again_clears_and_unregister_removes() {
    let mut compositor = Compositor::new(4, 4);
    compositor.register_source("a".to_string());
    compositor.push_frame("a", Frame::new(1, 1, "a")).unwrap();
    compositor.register_source("a".to_string());
    assert!(compositor.get_frame("a").is_none());
    assert_eq!(compositor.source_count(), 1);
    compositor.unregister_source("a");
    assert_eq!(compositor.source_count(), 0);
    assert!(compositor.push_frame("a", Frame::new(1, 1, "a")).is_err());
}

#[test]
fn composite_without_scene_fails() {
    let compositor = Compositor::new(4, 4);
    assert!(matches!(compositor.layers_to_composite(), Err(CompositorError::NoActiveScene)));
}

#[test]
fn composite_takes_visible_layers_with_frames_in_order() {
    let mut scene = Scene::new("s", "S", 8, 8);
    scene.add_layer(Layer::new("a", 0, 0, 8, 8));
    let mut hidden = Layer::new("b", 0, 0, 4, 4);
    hidden.visible = false;
    scene.add_layer(hidden);
    scene.add_layer(Layer::new("c", 4, 4, 4, 4));
    scene.add_layer(Layer::new("missing", 0, 0, 1, 1));
    let mut compositor = Compositor::with_scene(scene);
    for id in ["a", "b", "c"] {
        compositor.register_source(id.to_string());
        compositor.push_frame(id, Frame::new(1, 1, id)).unwrap();
    }
    let layers = compositor.layers_to_composite().unwrap();
    let ids: Vec<String> = layers.iter().map(|(l, _)| l.source_id.clone()).collect();
    assert_eq!(ids, vec!["a".to_string(), "c".to_string()]);
    assert_eq!(layers[1].1.source_id, "c");
}

#[test]
fn layer_region_is_clipped_to_output() {
    let compositor = Compositor::new(100, 50);
    assert_eq!(compositor.layer_region(&Layer::new("x", 80, 40, 40, 40)), (80, 40, 20, 10));
    assert_eq!(compositor.layer_region(&Layer::new("x", -10, -3, 30, 20)), (0, 0, 30, 20));
    assert_eq!(compositor.layer_region(&Layer::new("x", 100, 0, 5, 5)), (100, 0, 0, 5));
}

#[test]
fn set_scene_keeps_sources_and_resizes() {
    let mut compositor = Compositor::new(4, 4);
    compositor.register_source("a".to_string());
    compositor.push_frame("a", Frame::new(1, 1, "a")).unwrap();
    compositor.set_scene(layouts::single("a", 640, 360));
    assert_eq!(compositor.output_width(), 640);
    assert_eq!(compositor.output_height(), 360);
    assert!(compositor.get_frame("a").is_some());
}

#[test]
fn builder_scene_sets_resolution() {
    let compositor = CompositorBuilder::default()
        .resolution(10, 10)
        .scene(layouts::single("cam", 320, 240))
        .build();
    assert_eq!(compositor.output_width(), 320);
    assert_eq!(compositor.source_count(), 0);
    assert_eq!(compositor.scene().unwrap().id, "single");
}
