//! Scene configuration schema: how video sources are laid out on the output
//! canvas (position, size, visibility, z-order) and how scenes change.
use vstd::prelude::*;

pub mod layouts;

verus! {

/// IEEE-754 single-precision bit pattern of `1.0`, the full opacity and full
/// volume of a new layer. Opacity and volume are carried as the bit patterns
/// of single-precision numbers; the library never does arithmetic on them.
pub const FULL_LEVEL_BITS: u32 = 0x3F80_0000;

/// Output resolution
#[derive(Debug, Clone, Copy, PartialEq, Eq, Structural)]
pub struct Resolution {
    pub width: u32,
    pub height: u32,
}

impl Resolution {
    pub fn new(width: u32, height: u32) -> (r: Self)
        ensures
            r == (Resolution { width, height }),
    {
        Resolution { width, height }
    }
}

/// 2D position
#[derive(Debug, Clone, Copy, PartialEq, Eq, Structural)]
pub struct Position {
    pub x: i32,
    pub y: i32,
}

impl Position {
    pub fn new(x: i32, y: i32) -> (p: Self)
        ensures
            p == (Position { x, y }),
    {
        Position { x, y }
    }
}

/// 2D size
#[derive(Debug, Clone, Copy, PartialEq, Eq, Structural)]
pub struct Size {
    pub width: u32,
    pub height: u32,
}

impl Size {
    pub fn new(width: u32, height: u32) -> (s: Self)
        ensures
            s == (Size { width, height }),
    {
        Size { width, height }
    }
}

/// Mathematical model of a layer.
pub struct LayerView {
    pub source_id: Seq<char>,
    pub position: Position,
    pub size: Size,
    pub opacity_bits: u32,
    pub visible: bool,
    pub volume_bits: u32,
}

/// A single layer in the scene (source + position + size)
#[derive(Debug)]
pub struct Layer {
    /// Source identifier (matches the identifier of a capture source)
    pub source_id: String,
    /// Position on canvas
    pub position: Position,
    /// Size on canvas
    pub size: Size,
    /// Opacity (0.0 = invisible, 1.0 = fully visible), as single-precision bits
    pub opacity_bits: u32,
    /// Whether this layer is visible
    pub visible: bool,
    /// Audio volume for this source (0.0 = muted, 1.0 = full), as single-precision bits
    pub volume_bits: u32,
}

impl View for Layer {
    type V = LayerView;

    open spec fn view(&self) -> LayerView {
        LayerView {
            source_id: self.source_id@,
            position: self.position,
            size: self.size,
            opacity_bits: self.opacity_bits,
            visible: self.visible,
            volume_bits: self.volume_bits,
        }
    }
}

/// The layer that `Layer::new` builds.
pub open spec fn new_layer(source_id: Seq<char>, x: i32, y: i32, width: u32, height: u32) -> LayerView {
    LayerView {
        source_id,
        position: Position { x, y },
        size: Size { width, height },
        opacity_bits: FULL_LEVEL_BITS,
        visible: true,
        volume_bits: FULL_LEVEL_BITS,
    }
}

impl Clone for Layer {
    fn clone(&self) -> (res: Self)
        ensures
            res@ == self@,
    {
        Layer {
            source_id: self.source_id.clone(),
            position: self.position,
            size: self.size,
            opacity_bits: self.opacity_bits,
            visible: self.visible,
            volume_bits: self.volume_bits,
        }
    }
}

impl Layer {
    /// Create a new, visible layer at full opacity and full volume.
    pub fn new(source_id: &str, x: i32, y: i32, width: u32, height: u32) -> (l: Self)
        ensures
            l@ == new_layer(source_id@, x, y, width, height),
    {
        Layer {
            source_id: source_id.to_string(),
            position: Position::new(x, y),
            size: Size::new(width, height),
            opacity_bits: FULL_LEVEL_BITS,
            visible: true,
            volume_bits: FULL_LEVEL_BITS,
        }
    }
}

/// Slide direction for slide transitions
#[derive(Debug, Clone, Copy, PartialEq, Eq, Structural)]
pub enum SlideDirection {
    Left,
    Right,
    Top,
    Bottom,
}

/// Push direction for push transitions
#[derive(Debug, Clone, Copy, PartialEq, Eq, Structural)]
pub enum PushDirection {
    Left,
    Right,
    Top,
    Bottom,
}

/// Transition types for scene changes
#[derive(Debug, Clone, Copy, PartialEq, Eq, Structural)]
pub enum TransitionType {
    /// Instant cut (no transition)
    Cut,
    /// Cross-fade between scenes
    Fade,
    /// Slide in from direction
    Slide(SlideDirection),
    /// Push transition
    Push(PushDirection),
    /// Zoom transition
    Zoom,
}

impl Default for TransitionType {
    fn default() -> (t: Self)
        ensures
            t == TransitionType::Cut,
    {
        TransitionType::Cut
    }
}

/// Transition configuration
#[derive(Debug, Clone, Copy, PartialEq, Eq, Structural)]
pub struct Transition {
    /// Transition type
    pub transition_type: TransitionType,
    /// Transition duration in milliseconds
    pub duration_ms: u32,
}

impl Transition {
    /// Create a new transition
    pub fn new(transition_type: TransitionType, duration_ms: u32) -> (t: Self)
        ensures
            t == (Transition { transition_type, duration_ms }),
    {
        Transition { transition_type, duration_ms }
    }

    /// Create a default fade transition (500ms)
    pub fn fade() -> (t: Self)
        ensures
            t == (Transition { transition_type: TransitionType::Fade, duration_ms: 500 }),
    {
        Transition { transition_type: TransitionType::Fade, duration_ms: 500 }
    }

    /// Create a default cut (instant)
    pub fn cut() -> (t: Self)
        ensures
            t == (Transition { transition_type: TransitionType::Cut, duration_ms: 0 }),
    {
        Transition { transition_type: TransitionType::Cut, duration_ms: 0 }
    }
}

/// Mathematical model of a scene.
pub struct SceneView {
    pub id: Seq<char>,
    pub name: Seq<char>,
    pub resolution: Resolution,
    pub layers: Seq<LayerView>,
    pub transition: Option<Transition>,
}

/// Scene configuration - defines how sources are composited
#[derive(Debug)]
pub struct Scene {
    /// Unique scene identifier
    pub id: String,
    /// Scene name for display
    pub name: String,
    /// Output resolution
    pub resolution: Resolution,
    /// List of source layers in z-order (back to front)
    pub layers: Vec<Layer>,
    /// Active transition configuration
    pub transition: Option<Transition>,
}

/// The views of a sequence of layers.
pub open spec fn layer_views(layers: Seq<Layer>) -> Seq<LayerView> {
    layers.map_values(|l: Layer| l@)
}

impl View for Scene {
    type V = SceneView;

    open spec fn view(&self) -> SceneView {
        SceneView {
            id: self.id@,
            name: self.name@,
            resolution: self.resolution,
            layers: layer_views(self.layers@),
            transition: self.transition,
        }
    }
}

/// Copies a list of layers, keeping each layer's view.
pub fn clone_layers(layers: &Vec<Layer>) -> (res: Vec<Layer>)
    ensures
        layer_views(res@) == layer_views(layers@),
{
    let mut res: Vec<Layer> = Vec::new();
    let n = layers.len();
    for i in 0..n
        invariant
            n == layers.len(),
            res.len() == i,
            forall|k: int| 0 <= k < i ==> #[trigger] res@[k]@ == layers@[k]@,
    {
        res.push(layers[i].clone());
    }
    assert(layer_views(res@) =~= layer_views(layers@));
    res
}

impl Clone for Scene {
    fn clone(&self) -> (res: Self)
        ensures
            res@ == self@,
    {
        Scene {
            id: self.id.clone(),
            name: self.name.clone(),
            resolution: self.resolution,
            layers: clone_layers(&self.layers),
            transition: self.transition,
        }
    }
}

impl Scene {
    /// Create a new scene with no layers and no transition.
    pub fn new(id: &str, name: &str, width: u32, height: u32) -> (s: Self)
        ensures
            s@ == (SceneView {
                id: id@,
                name: name@,
                resolution: Resolution { width, height },
                layers: Seq::empty(),
                transition: None,
            }),
    {
        let s = Scene {
            id: id.to_string(),
            name: name.to_string(),
            resolution: Resolution { width, height },
            layers: Vec::new(),
            transition: None,
        };
        assert(layer_views(s.layers@) =~= Seq::empty());
        s
    }

    /// Add a layer on top of the scene's layers.
    pub fn add_layer(&mut self, layer: Layer)
        ensures
            final(self)@ == (SceneView { layers: old(self)@.layers.push(layer@), ..old(self)@ }),
    {
        self.layers.push(layer);
        assert(layer_views(self.layers@) =~= layer_views(old(self).layers@).push(layer@));
    }

    /// Set a transition for scene changes
    pub fn set_transition(&mut self, transition: Transition)
        ensures
            final(self)@ == (SceneView { transition: Some(transition), ..old(self)@ }),
    {
        self.transition = Some(transition);
    }
}

} // verus!
