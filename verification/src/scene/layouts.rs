//! Predefined scene layouts: single source, picture-in-picture, side by side
//! and a two-by-two grid.
use vstd::prelude::*;
use crate::scene::{Scene, SceneView, Layer, LayerView, Position, Resolution, new_layer};

verus! {

/// The scene of a layout: given identifiers, resolution and layers, no transition.
pub open spec fn layout_scene(id: Seq<char>, name: Seq<char>, width: u32, height: u32, layers: Seq<LayerView>) -> SceneView {
    SceneView { id, name, resolution: Resolution { width, height }, layers, transition: None }
}

/// Single source full screen
pub fn single(source_id: &str, output_width: u32, output_height: u32) -> (s: Scene)
    ensures
        s@ == layout_scene("single"@, "Single Source"@, output_width, output_height,
            seq![new_layer(source_id@, 0, 0, output_width, output_height)]),
{
    let mut scene = Scene::new("single", "Single Source", output_width, output_height);
    scene.add_layer(Layer::new(source_id, 0, 0, output_width, output_height));
    scene
}

/// Picture-in-picture (small inset)
pub fn pip(
    main_source: &str,
    pip_source: &str,
    output_width: u32,
    output_height: u32,
    pip_width: u32,
    pip_height: u32,
    pip_position: Position,
) -> (s: Scene)
    ensures
        s@ == layout_scene("pip"@, "Picture in Picture"@, output_width, output_height,
            seq![
                new_layer(main_source@, 0, 0, output_width, output_height),
                new_layer(pip_source@, pip_position.x, pip_position.y, pip_width, pip_height),
            ]),
{
    let mut scene = Scene::new("pip", "Picture in Picture", output_width, output_height);
    // Main source (full screen)
    scene.add_layer(Layer::new(main_source, 0, 0, output_width, output_height));
    // PiP source (inset)
    let mut pip_layer = Layer::new(pip_source, pip_position.x, pip_position.y, pip_width, pip_height);
    pip_layer.opacity_bits = crate::scene::FULL_LEVEL_BITS;
    scene.add_layer(pip_layer);
    assert(scene@.layers =~= seq![
        new_layer(main_source@, 0, 0, output_width, output_height),
        new_layer(pip_source@, pip_position.x, pip_position.y, pip_width, pip_height),
    ]);
    scene
}

/// Side by side (horizontal split)
pub fn side_by_side(left_source: &str, right_source: &str, output_width: u32, output_height: u32) -> (s: Scene)
    ensures
        s@ == layout_scene("side_by_side"@, "Side by Side"@, output_width, output_height,
            seq![
                new_layer(left_source@, 0, 0, output_width / 2, output_height),
                new_layer(right_source@, (output_width / 2) as i32, 0, output_width / 2, output_height),
            ]),
{
    let mut scene = Scene::new("side_by_side", "Side by Side", output_width, output_height);
    let half_width = output_width / 2;
    scene.add_layer(Layer::new(left_source, 0, 0, half_width, output_height));
    scene.add_layer(Layer::new(right_source, half_width as i32, 0, half_width, output_height));
    assert(scene@.layers =~= seq![
        new_layer(left_source@, 0, 0, half_width, output_height),
        new_layer(right_source@, half_width as i32, 0, half_width, output_height),
    ]);
    scene
}

/// Grid layout (2x2): top-left, top-right, bottom-left, bottom-right.
pub fn grid_2x2(sources: &[&str; 4], output_width: u32, output_height: u32) -> (s: Scene)
    ensures
        s@ == layout_scene("grid_2x2"@, "2x2 Grid"@, output_width, output_height,
            seq![
                new_layer(sources@[0]@, 0, 0, output_width / 2, output_height / 2),
                new_layer(sources@[1]@, (output_width / 2) as i32, 0, output_width / 2, output_height / 2),
                new_layer(sources@[2]@, 0, (output_height / 2) as i32, output_width / 2, output_height / 2),
                new_layer(sources@[3]@, (output_width / 2) as i32, (output_height / 2) as i32,
                    output_width / 2, output_height / 2),
            ]),
{
    let mut scene = Scene::new("grid_2x2", "2x2 Grid", output_width, output_height);
    let half_width = output_width / 2;
    let half_height = output_height / 2;
    scene.add_layer(Layer::new(sources[0], 0, 0, half_width, half_height));
    scene.add_layer(Layer::new(sources[1], half_width as i32, 0, half_width, half_height));
    scene.add_layer(Layer::new(sources[2], 0, half_height as i32, half_width, half_height));
    scene.add_layer(Layer::new(sources[3], half_width as i32, half_height as i32, half_width, half_height));
    assert(scene@.layers =~= seq![
        new_layer(sources@[0]@, 0, 0, half_width, half_height),
        new_layer(sources@[1]@, half_width as i32, 0, half_width, half_height),
        new_layer(sources@[2]@, 0, half_height as i32, half_width, half_height),
        new_layer(sources@[3]@, half_width as i32, half_height as i32, half_width, half_height),
    ]);
    scene
}

} // verus!
