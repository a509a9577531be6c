//! Compositor: keeps the latest frame of each registered source and decides,
//! for the active scene, which layers are drawn with which frames and where.
//!
//! The per-pixel sampling and blending is done by the caller with the layers
//! returned by `Compositor::layers_to_composite` and the regions of
//! `Compositor::layer_region`.
use vstd::prelude::*;
use crate::frame::{Frame, FrameView};
use crate::scene::{Scene, SceneView, Layer, LayerView, TransitionType};

verus! {

/// Compositor error types
#[derive(Debug)]
pub enum CompositorError {
    SourceNotFound(String),
    DimensionMismatch(String, u32, u32, u32, u32),
    NoActiveScene,
    RenderFailed(String),
}

/// The view of an optional frame.
pub open spec fn opt_frame_view(f: Option<Frame>) -> Option<FrameView> {
    match f {
        Some(fr) => Some(fr@),
        None => None,
    }
}

/// The view of an optional scene.
pub open spec fn opt_scene_view(s: Option<Scene>) -> Option<SceneView> {
    match s {
        Some(sc) => Some(sc@),
        None => None,
    }
}

/// The latest frame of one registered source.
struct SourceSlot {
    source_id: String,
    frame: Option<Frame>,
}

/// No two slots belong to the same source.
closed spec fn ids_distinct(slots: Seq<SourceSlot>) -> bool {
    forall|i: int, j: int|
        0 <= i < slots.len() && 0 <= j < slots.len() && i != j
            ==> #[trigger] slots[i].source_id@ != #[trigger] slots[j].source_id@
}

/// Whether some slot belongs to source `k`.
closed spec fn has_slot(slots: Seq<SourceSlot>, k: Seq<char>) -> bool {
    exists|i: int| 0 <= i < slots.len() && #[trigger] slots[i].source_id@ == k
}

/// Registered sources and their latest frames, keyed by source identifier.
closed spec fn slots_map(slots: Seq<SourceSlot>) -> Map<Seq<char>, Option<FrameView>> {
    Map::new(
        |k: Seq<char>| has_slot(slots, k),
        |k: Seq<char>| opt_frame_view(slots[choose|i: int| 0 <= i < slots.len() && #[trigger] slots[i].source_id@ == k].frame),
    )
}

proof fn lemma_slots_map_at(slots: Seq<SourceSlot>, i: int)
    requires
        ids_distinct(slots),
        0 <= i < slots.len(),
    ensures
        slots_map(slots).dom().contains(slots[i].source_id@),
        slots_map(slots)[slots[i].source_id@] == opt_frame_view(slots[i].frame),
{
    let k = slots[i].source_id@;
    assert(has_slot(slots, k));
    let j = choose|j: int| 0 <= j < slots.len() && #[trigger] slots[j].source_id@ == k;
    assert(j == i);
}

proof fn lemma_slots_map_eq(slots: Seq<SourceSlot>, m: Map<Seq<char>, Option<FrameView>>)
    requires
        ids_distinct(slots),
        forall|i: int| 0 <= i < slots.len() ==> #[trigger] m.dom().contains(slots[i].source_id@)
            && m[slots[i].source_id@] == opt_frame_view(slots[i].frame),
        forall|k: Seq<char>| #[trigger] m.dom().contains(k) ==> has_slot(slots, k),
    ensures
        slots_map(slots) == m,
{
    assert forall|k: Seq<char>| #[trigger] slots_map(slots).dom().contains(k) <==> m.dom().contains(k) by {
        if has_slot(slots, k) {
            let i = choose|i: int| 0 <= i < slots.len() && #[trigger] slots[i].source_id@ == k;
            assert(m.dom().contains(slots[i].source_id@));
        }
    }
    assert forall|k: Seq<char>| #[trigger] slots_map(slots).dom().contains(k) implies slots_map(slots)[k] == m[k] by {
        let i = choose|i: int| 0 <= i < slots.len() && #[trigger] slots[i].source_id@ == k;
        lemma_slots_map_at(slots, i);
    }
    assert(slots_map(slots) =~= m);
}

proof fn lemma_slots_map_len(slots: Seq<SourceSlot>)
    requires
        ids_distinct(slots),
    ensures
        slots_map(slots).dom().finite(),
        slots_map(slots).dom().len() == slots.len(),
    decreases slots.len(),
{
    if slots.len() == 0 {
        assert(slots_map(slots).dom() =~= Set::empty());
    } else {
        let prefix = slots.drop_last();
        let last = slots.last();
        assert(ids_distinct(prefix)) by {
            assert forall|i: int, j: int|
                0 <= i < prefix.len() && 0 <= j < prefix.len() && i != j
                    implies #[trigger] prefix[i].source_id@ != #[trigger] prefix[j].source_id@ by {
                assert(prefix[i] == slots[i] && prefix[j] == slots[j]);
            }
        }
        lemma_slots_map_len(prefix);
        assert forall|k: Seq<char>| #[trigger] slots_map(slots).dom().contains(k)
            <==> slots_map(prefix).dom().insert(last.source_id@).contains(k) by {
            if has_slot(slots, k) {
                let i = choose|i: int| 0 <= i < slots.len() && #[trigger] slots[i].source_id@ == k;
                if i < prefix.len() {
                    assert(prefix[i] == slots[i]);
                    assert(has_slot(prefix, k));
                }
            }
            if has_slot(prefix, k) {
                let i = choose|i: int| 0 <= i < prefix.len() && #[trigger] prefix[i].source_id@ == k;
                assert(prefix[i] == slots[i]);
                assert(has_slot(slots, k));
            }
            if k == last.source_id@ {
                assert(slots[slots.len() - 1] == last);
                assert(has_slot(slots, k));
            }
        }
        assert(slots_map(slots).dom() =~= slots_map(prefix).dom().insert(last.source_id@));
        assert(!slots_map(prefix).dom().contains(last.source_id@)) by {
            if has_slot(prefix, last.source_id@) {
                let i = choose|i: int| 0 <= i < prefix.len() && #[trigger] prefix[i].source_id@ == last.source_id@;
                assert(prefix[i] == slots[i]);
                assert(slots[slots.len() - 1] == last);
            }
        }
    }
}

/// Index of the slot of source `id`, if it is registered.
fn slots_find(slots: &Vec<SourceSlot>, id: &String) -> (r: Option<usize>)
    ensures
        match r {
            Some(i) => i < slots.len() && slots@[i as int].source_id@ == id@,
            None => !has_slot(slots@, id@),
        },
{
    let n = slots.len();
    for i in 0..n
        invariant
            n == slots.len(),
            forall|j: int| 0 <= j < i ==> #[trigger] slots@[j].source_id@ != id@,
    {
        if slots[i].source_id == *id {
            return Some(i);
        }
    }
    None
}

/// Replaces the frame of slot `i`, keeping its source.
fn slots_replace_frame(slots: &mut Vec<SourceSlot>, i: usize, id: String, frame: Option<Frame>)
    requires
        ids_distinct(old(slots)@),
        i < old(slots).len(),
        old(slots)@[i as int].source_id@ == id@,
    ensures
        ids_distinct(final(slots)@),
        slots_map(final(slots)@) == slots_map(old(slots)@).insert(id@, opt_frame_view(frame)),
{
    let ghost old_slots = slots@;
    let ghost m = slots_map(old_slots).insert(id@, opt_frame_view(frame));
    slots[i] = SourceSlot { source_id: id, frame };
    proof {
        let new_slots = slots@;
        assert forall|a: int, b: int|
            0 <= a < new_slots.len() && 0 <= b < new_slots.len() && a != b
                implies #[trigger] new_slots[a].source_id@ != #[trigger] new_slots[b].source_id@ by {
            assert(old_slots[a].source_id@ == new_slots[a].source_id@);
            assert(old_slots[b].source_id@ == new_slots[b].source_id@);
        }
        assert forall|j: int| 0 <= j < new_slots.len() implies #[trigger] m.dom().contains(new_slots[j].source_id@)
            && m[new_slots[j].source_id@] == opt_frame_view(new_slots[j].frame) by {
            if j != i {
                lemma_slots_map_at(old_slots, j);
            }
        }
        assert forall|k: Seq<char>| #[trigger] m.dom().contains(k) implies has_slot(new_slots, k) by {
            if k == new_slots[i as int].source_id@ {
            } else {
                let j = choose|j: int| 0 <= j < old_slots.len() && #[trigger] old_slots[j].source_id@ == k;
                assert(new_slots[j].source_id@ == k);
            }
        }
        lemma_slots_map_eq(new_slots, m);
    }
}

/// Registers source `id` with no frame.
fn slots_register(slots: &mut Vec<SourceSlot>, id: String)
    requires
        ids_distinct(old(slots)@),
    ensures
        ids_distinct(final(slots)@),
        slots_map(final(slots)@) == slots_map(old(slots)@).insert(id@, None),
{
    match slots_find(slots, &id) {
        Some(i) => {
            slots_replace_frame(slots, i, id, None);
        },
        None => {
            let ghost old_slots = slots@;
            let ghost m = slots_map(old_slots).insert(id@, None);
            let ghost idv = id@;
            slots.push(SourceSlot { source_id: id, frame: None });
            proof {
                let new_slots = slots@;
                let n = old_slots.len() as int;
                assert forall|a: int, b: int|
                    0 <= a < new_slots.len() && 0 <= b < new_slots.len() && a != b
                        implies #[trigger] new_slots[a].source_id@ != #[trigger] new_slots[b].source_id@ by {
                    if a < n && b < n {
                        assert(old_slots[a] == new_slots[a] && old_slots[b] == new_slots[b]);
                    } else if a < n {
                        assert(old_slots[a] == new_slots[a]);
                    } else {
                        assert(old_slots[b] == new_slots[b]);
                    }
                }
                assert forall|j: int| 0 <= j < new_slots.len() implies #[trigger] m.dom().contains(new_slots[j].source_id@)
                    && m[new_slots[j].source_id@] == opt_frame_view(new_slots[j].frame) by {
                    if j < n {
                        assert(old_slots[j] == new_slots[j]);
                        lemma_slots_map_at(old_slots, j);
                    }
                }
                assert forall|k: Seq<char>| #[trigger] m.dom().contains(k) implies has_slot(new_slots, k) by {
                    if k == idv {
                        assert(new_slots[n].source_id@ == k);
                    } else {
                        let j = choose|j: int| 0 <= j < old_slots.len() && #[trigger] old_slots[j].source_id@ == k;
                        assert(new_slots[j] == old_slots[j]);
                    }
                }
                lemma_slots_map_eq(new_slots, m);
            }
        },
    }
}

/// Unregisters source `id`.
fn slots_unregister(slots: &mut Vec<SourceSlot>, id: String)
    requires
        ids_distinct(old(slots)@),
    ensures
        ids_distinct(final(slots)@),
        slots_map(final(slots)@) == slots_map(old(slots)@).remove(id@),
{
    let ghost old_slots = slots@;
    let ghost m = slots_map(old_slots).remove(id@);
    match slots_find(slots, &id) {
        Some(i) => {
            slots.remove(i);
            proof {
                let new_slots = slots@;
                assert(new_slots =~= old_slots.remove(i as int));
                assert forall|a: int, b: int|
                    0 <= a < new_slots.len() && 0 <= b < new_slots.len() && a != b
                        implies #[trigger] new_slots[a].source_id@ != #[trigger] new_slots[b].source_id@ by {
                    let a0 = if a < i { a } else { a + 1 };
                    let b0 = if b < i { b } else { b + 1 };
                    assert(old_slots[a0] == new_slots[a] && old_slots[b0] == new_slots[b]);
                }
                assert forall|j: int| 0 <= j < new_slots.len() implies #[trigger] m.dom().contains(new_slots[j].source_id@)
                    && m[new_slots[j].source_id@] == opt_frame_view(new_slots[j].frame) by {
                    let j0 = if j < i { j } else { j + 1 };
                    assert(old_slots[j0] == new_slots[j]);
                    lemma_slots_map_at(old_slots, j0);
                    assert(j0 != i);
                }
                assert forall|k: Seq<char>| #[trigger] m.dom().contains(k) implies has_slot(new_slots, k) by {
                    let j = choose|j: int| 0 <= j < old_slots.len() && #[trigger] old_slots[j].source_id@ == k;
                    assert(j != i);
                    let j1 = if j < i { j } else { j - 1 };
                    assert(new_slots[j1] == old_slots[j]);
                }
                lemma_slots_map_eq(new_slots, m);
            }
        },
        None => {
            proof {
                assert(slots_map(old_slots) =~= m);
            }
        },
    }
}

/// Stores a frame for source `id`, which must be registered.
fn slots_push(slots: &mut Vec<SourceSlot>, id: String, frame: Frame) -> (r: Result<(), CompositorError>)
    requires
        ids_distinct(old(slots)@),
    ensures
        ids_distinct(final(slots)@),
        r is Ok <==> slots_map(old(slots)@).dom().contains(id@),
        r is Ok ==> slots_map(final(slots)@) == slots_map(old(slots)@).insert(id@, Some(frame@)),
        r is Err ==> final(slots)@ == old(slots)@,
        r matches Err(e) ==> (e matches CompositorError::SourceNotFound(s) && s@ == id@),
{
    match slots_find(slots, &id) {
        Some(i) => {
            proof { lemma_slots_map_at(slots@, i as int); }
            slots_replace_frame(slots, i, id, Some(frame));
            Ok(())
        },
        None => Err(CompositorError::SourceNotFound(id)),
    }
}

/// Mathematical model of a compositor.
pub struct CompositorView {
    pub scene: Option<SceneView>,
    /// Registered sources and the latest frame pushed for each, if any.
    pub sources: Map<Seq<char>, Option<FrameView>>,
    pub output_width: u32,
    pub output_height: u32,
}

/// The latest frame of source `id`: none for an unregistered source.
pub open spec fn latest_frame(sources: Map<Seq<char>, Option<FrameView>>, id: Seq<char>) -> Option<FrameView> {
    if sources.dom().contains(id) { sources[id] } else { None }
}

/// The compositor after a frame of source `id` was pushed.
pub open spec fn after_push(v: CompositorView, id: Seq<char>, frame: FrameView) -> CompositorView {
    CompositorView { sources: v.sources.insert(id, Some(frame)), ..v }
}

/// The compositor after source `id` was registered: it holds no frame yet.
pub open spec fn after_register(v: CompositorView, id: Seq<char>) -> CompositorView {
    CompositorView { sources: v.sources.insert(id, None), ..v }
}

/// The compositor after source `id` was unregistered.
pub open spec fn after_unregister(v: CompositorView, id: Seq<char>) -> CompositorView {
    CompositorView { sources: v.sources.remove(id), ..v }
}

/// The compositor after `scene` became the active scene: the output takes the
/// scene's resolution, the sources are kept.
pub open spec fn after_set_scene(v: CompositorView, scene: SceneView) -> CompositorView {
    CompositorView {
        scene: Some(scene),
        output_width: scene.resolution.width,
        output_height: scene.resolution.height,
        ..v
    }
}

/// The layers drawn for a scene, back to front, each with the frame it shows:
/// the visible layers whose source holds a frame.
pub open spec fn composite_selection(layers: Seq<LayerView>, sources: Map<Seq<char>, Option<FrameView>>) -> Seq<(LayerView, FrameView)>
    decreases layers.len(),
{
    if layers.len() == 0 {
        Seq::empty()
    } else {
        let prev = composite_selection(layers.drop_last(), sources);
        let l = layers.last();
        match latest_frame(sources, l.source_id) {
            Some(f) => if l.visible { prev.push((l, f)) } else { prev },
            None => prev,
        }
    }
}

/// Views of layer/frame pairs.
pub open spec fn pair_views(pairs: Seq<(Layer, Frame)>) -> Seq<(LayerView, FrameView)> {
    pairs.map_values(|p: (Layer, Frame)| (p.0@, p.1@))
}

/// The offset of a layer coordinate on the canvas: negative coordinates are clamped to 0.
pub open spec fn clamped_offset(c: i32) -> u32 {
    if c < 0 { 0 } else { c as u32 }
}

/// Whether the region of a layer can be computed in 32-bit arithmetic: the
/// layer's far edge fits and its near edge is on the canvas or at its border.
pub open spec fn region_defined(layer: LayerView, output_width: u32, output_height: u32) -> bool {
    &&& clamped_offset(layer.position.x) + layer.size.width <= u32::MAX
    &&& clamped_offset(layer.position.y) + layer.size.height <= u32::MAX
    &&& clamped_offset(layer.position.x) <= output_width
    &&& clamped_offset(layer.position.y) <= output_height
}

/// The canvas region `(x, y, width, height)` that a layer covers, clipped to the output.
pub open spec fn layer_region_spec(layer: LayerView, output_width: u32, output_height: u32) -> (u32, u32, u32, u32) {
    let x = clamped_offset(layer.position.x);
    let y = clamped_offset(layer.position.y);
    let max_x = if x + layer.size.width <= output_width { x + layer.size.width } else { output_width as int };
    let max_y = if y + layer.size.height <= output_height { y + layer.size.height } else { output_height as int };
    (x, y, (max_x - x) as u32, (max_y - y) as u32)
}

/// Compositor - composites multiple source frames into scenes
pub struct Compositor {
    /// Active scene configuration
    scene: Option<Scene>,
    /// Source buffers: latest frame of each registered source
    source_buffers: Vec<SourceSlot>,
    /// Output dimensions
    output_width: u32,
    output_height: u32,
}

impl View for Compositor {
    type V = CompositorView;

    closed spec fn view(&self) -> CompositorView {
        CompositorView {
            scene: opt_scene_view(self.scene),
            sources: slots_map(self.source_buffers@),
            output_width: self.output_width,
            output_height: self.output_height,
        }
    }
}

/// How a change of scene is carried out.
#[derive(Debug)]
pub enum SceneChange {
    /// The old scene is rendered and crossfaded into the new one.
    Crossfade,
    /// The new scene replaces the old one at once.
    Switch,
}

/// How a change to `to_scene` is carried out: by its transition, a fade
/// crossfading and every other transition switching at once. A scene
/// without a transition cannot be changed to.
pub fn scene_change(to_scene: &Scene) -> (r: Result<SceneChange, CompositorError>)
    ensures
        match to_scene@.transition {
            None => r matches Err(CompositorError::NoActiveScene),
            Some(t) => r matches Ok(c) && (c is Crossfade <==> t.transition_type is Fade),
        },
{
    match &to_scene.transition {
        None => Err(CompositorError::NoActiveScene),
        Some(t) => match t.transition_type {
            TransitionType::Fade => Ok(SceneChange::Crossfade),
            _ => Ok(SceneChange::Switch),
        },
    }
}

impl Compositor {
    #[verifier::type_invariant]
    closed spec fn well_formed(self) -> bool {
        ids_distinct(self.source_buffers@)
    }

    /// Create a new compositor with no scene and no sources.
    pub fn new(output_width: u32, output_height: u32) -> (c: Self)
        ensures
            c@ == (CompositorView { scene: None, sources: Map::empty(), output_width, output_height }),
    {
        let c = Compositor { scene: None, source_buffers: Vec::new(), output_width, output_height };
        assert(slots_map(c.source_buffers@) =~= Map::empty());
        c
    }

    /// Create a new compositor with a scene; the output takes the scene's resolution.
    pub fn with_scene(scene: Scene) -> (c: Self)
        ensures
            c@ == (CompositorView {
                scene: Some(scene@),
                sources: Map::empty(),
                output_width: scene.resolution.width,
                output_height: scene.resolution.height,
            }),
    {
        let width = scene.resolution.width;
        let height = scene.resolution.height;
        let mut compositor = Compositor::new(width, height);
        proof { use_type_invariant(&compositor); }
        compositor.scene = Some(scene);
        compositor
    }

    /// Set the active scene
    pub fn set_scene(&mut self, scene: Scene)
        ensures
            final(self)@ == after_set_scene(old(self)@, scene@),
    {
        proof { use_type_invariant(&*self); }
        self.output_width = scene.resolution.width;
        self.output_height = scene.resolution.height;
        self.scene = Some(scene);
    }

    /// Get the current scene
    pub fn scene(&self) -> (r: Option<&Scene>)
        ensures
            match r {
                Some(s) => self@.scene == Some(s@),
                None => self@.scene is None,
            },
    {
        match &self.scene {
            Some(s) => Some(s),
            None => None,
        }
    }

    /// Output width in pixels.
    pub fn output_width(&self) -> (w: u32)
        ensures
            w == self@.output_width,
    {
        self.output_width
    }

    /// Output height in pixels.
    pub fn output_height(&self) -> (h: u32)
        ensures
            h == self@.output_height,
    {
        self.output_height
    }

    /// Number of registered sources.
    pub fn source_count(&self) -> (n: usize)
        ensures
            self@.sources.dom().finite(),
            n == self@.sources.dom().len(),
    {
        proof {
            use_type_invariant(self);
            lemma_slots_map_len(self.source_buffers@);
        }
        self.source_buffers.len()
    }

    /// Register a source for compositing; a source registered again loses its frame.
    pub fn register_source(&mut self, source_id: String)
        ensures
            final(self)@ == after_register(old(self)@, source_id@),
    {
        proof { use_type_invariant(&*self); }
        let mut slots: Vec<SourceSlot> = Vec::new();
        std::mem::swap(&mut slots, &mut self.source_buffers);
        slots_register(&mut slots, source_id);
        self.source_buffers = slots;
    }

    /// Unregister a source, dropping its frame.
    pub fn unregister_source(&mut self, source_id: &str)
        ensures
            final(self)@ == after_unregister(old(self)@, source_id@),
    {
        proof { use_type_invariant(&*self); }
        let mut slots: Vec<SourceSlot> = Vec::new();
        std::mem::swap(&mut slots, &mut self.source_buffers);
        slots_unregister(&mut slots, source_id.to_string());
        self.source_buffers = slots;
    }

    /// Push a frame from a registered source; fails for a source that is not registered.
    pub fn push_frame(&mut self, source_id: &str, frame: Frame) -> (r: Result<(), CompositorError>)
        ensures
            r is Ok <==> old(self)@.sources.dom().contains(source_id@),
            r is Ok ==> final(self)@ == after_push(old(self)@, source_id@, frame@),
            r is Err ==> final(self)@ == old(self)@,
            r matches Err(e) ==> (e matches CompositorError::SourceNotFound(s) && s@ == source_id@),
    {
        proof { use_type_invariant(&*self); }
        let mut slots: Vec<SourceSlot> = Vec::new();
        std::mem::swap(&mut slots, &mut self.source_buffers);
        let r = slots_push(&mut slots, source_id.to_string(), frame);
        self.source_buffers = slots;
        r
    }

    /// Get a copy of the latest frame of a source: none if the source is not
    /// registered or has not received a frame.
    pub fn get_frame(&self, source_id: &str) -> (r: Option<Frame>)
        ensures
            opt_frame_view(r) == latest_frame(self@.sources, source_id@),
    {
        proof { use_type_invariant(self); }
        let key = source_id.to_string();
        match slots_find(&self.source_buffers, &key) {
            Some(i) => {
                proof { lemma_slots_map_at(self.source_buffers@, i as int); }
                match &self.source_buffers[i].frame {
                    Some(f) => Some(f.clone()),
                    None => None,
                }
            },
            None => None,
        }
    }

    /// The layers of the active scene that are drawn, back to front, each with
    /// a copy of the frame it shows; fails when there is no active scene.
    pub fn layers_to_composite(&self) -> (r: Result<Vec<(Layer, Frame)>, CompositorError>)
        ensures
            r is Err <==> self@.scene is None,
            r matches Err(e) ==> e is NoActiveScene,
            r matches Ok(v) ==> pair_views(v@) == composite_selection(self@.scene->0.layers, self@.sources),
    {
        match &self.scene {
            None => Err(CompositorError::NoActiveScene),
            Some(scene) => {
                let ghost lv = scene@.layers;
                let ghost sources = self@.sources;
                let mut out: Vec<(Layer, Frame)> = Vec::new();
                let n = scene.layers.len();
                for i in 0..n
                    invariant
                        n == scene.layers.len(),
                        lv == crate::scene::layer_views(scene.layers@),
                        sources == self@.sources,
                        pair_views(out@) == composite_selection(lv.take(i as int), sources),
                {
                    let layer = &scene.layers[i];
                    assert(lv.take(i + 1).drop_last() =~= lv.take(i as int));
                    assert(lv.take(i + 1).last() == layer@);
                    if layer.visible {
                        match self.get_frame(layer.source_id.as_str()) {
                            Some(f) => {
                                let ghost prev = out@;
                                out.push((layer.clone(), f));
                                assert(pair_views(out@) =~= pair_views(prev).push((layer@, f@)));
                            },
                            None => {},
                        }
                    }
                }
                assert(lv.take(n as int) =~= lv);
                Ok(out)
            },
        }
    }

    /// Whether the region of a layer can be computed on this compositor's
    /// output in 32-bit arithmetic (see `region_defined`).
    pub fn region_computable(&self, layer: &Layer) -> (b: bool)
        ensures
            b == region_defined(layer@, self@.output_width, self@.output_height),
    {
        let x: u64 = if layer.position.x < 0 { 0 } else { layer.position.x as u64 };
        let y: u64 = if layer.position.y < 0 { 0 } else { layer.position.y as u64 };
        x + layer.size.width as u64 <= u32::MAX as u64
            && y + layer.size.height as u64 <= u32::MAX as u64
            && x <= self.output_width as u64
            && y <= self.output_height as u64
    }

    /// The canvas region `(x, y, width, height)` that a layer covers on this
    /// compositor's output, clipped to the output.
    pub fn layer_region(&self, layer: &Layer) -> (r: (u32, u32, u32, u32))
        requires
            region_defined(layer@, self@.output_width, self@.output_height),
        ensures
            r == layer_region_spec(layer@, self@.output_width, self@.output_height),
    {
        let x_offset: u32 = if layer.position.x < 0 { 0 } else { layer.position.x as u32 };
        let y_offset: u32 = if layer.position.y < 0 { 0 } else { layer.position.y as u32 };
        let far_x = x_offset + layer.size.width;
        let far_y = y_offset + layer.size.height;
        let max_dst_x = if far_x <= self.output_width { far_x } else { self.output_width };
        let max_dst_y = if far_y <= self.output_height { far_y } else { self.output_height };
        (x_offset, y_offset, max_dst_x - x_offset, max_dst_y - y_offset)
    }
}

/// Builder for creating Compositor instances with configuration
pub struct CompositorBuilder {
    output_width: u32,
    output_height: u32,
    scene: Option<Scene>,
    sources: Vec<String>,
}

/// Mathematical model of a compositor builder.
pub struct CompositorBuilderView {
    pub output_width: u32,
    pub output_height: u32,
    pub scene: Option<SceneView>,
    pub sources: Seq<Seq<char>>,
}

impl View for CompositorBuilder {
    type V = CompositorBuilderView;

    closed spec fn view(&self) -> CompositorBuilderView {
        CompositorBuilderView {
            output_width: self.output_width,
            output_height: self.output_height,
            scene: opt_scene_view(self.scene),
            sources: self.sources@.map_values(|s: String| s@),
        }
    }
}

/// The compositor that a builder builds.
pub open spec fn built_compositor(b: CompositorBuilderView) -> CompositorView {
    CompositorView {
        scene: b.scene,
        sources: Map::new(|k: Seq<char>| b.sources.contains(k), |k: Seq<char>| None),
        output_width: match b.scene { Some(s) => s.resolution.width, None => b.output_width },
        output_height: match b.scene { Some(s) => s.resolution.height, None => b.output_height },
    }
}

impl CompositorBuilder {
    /// Create a new builder: 1920x1080 output, no scene, no sources.
    pub fn new() -> (b: Self)
        ensures
            b@ == (CompositorBuilderView { output_width: 1920, output_height: 1080, scene: None, sources: Seq::empty() }),
    {
        let b = CompositorBuilder { output_width: 1920, output_height: 1080, scene: None, sources: Vec::new() };
        assert(b@.sources =~= Seq::empty());
        b
    }

    /// Set output resolution
    pub fn resolution(self, width: u32, height: u32) -> (b: Self)
        ensures
            b@ == (CompositorBuilderView { output_width: width, output_height: height, ..self@ }),
    {
        let mut s = self;
        s.output_width = width;
        s.output_height = height;
        s
    }

    /// Set the scene
    pub fn scene(self, scene: Scene) -> (b: Self)
        ensures
            b@ == (CompositorBuilderView { scene: Some(scene@), ..self@ }),
    {
        let mut s = self;
        s.scene = Some(scene);
        s
    }

    /// Add a source to register
    pub fn add_source(self, source_id: String) -> (b: Self)
        ensures
            b@ == (CompositorBuilderView { sources: self@.sources.push(source_id@), ..self@ }),
    {
        let mut s = self;
        let ghost old_sources = s.sources@;
        s.sources.push(source_id);
        assert(s.sources@.map_values(|x: String| x@) =~= old_sources.map_values(|x: String| x@).push(source_id@));
        s
    }

    /// Build the compositor, registering the sources in order.
    pub fn build(self) -> (c: Compositor)
        ensures
            c@ == built_compositor(self@),
    {
        let ghost bv = self@;
        let CompositorBuilder { output_width, output_height, scene, sources } = self;
        let mut compositor = match scene {
            Some(scene) => Compositor::with_scene(scene),
            None => Compositor::new(output_width, output_height),
        };
        let ghost ids = bv.sources;
        let n = sources.len();
        for i in 0..n
            invariant
                n == sources.len(),
                ids == sources@.map_values(|s: String| s@),
                compositor@.scene == bv.scene,
                compositor@.output_width == built_compositor(bv).output_width,
                compositor@.output_height == built_compositor(bv).output_height,
                compositor@.sources == Map::new(|k: Seq<char>| ids.take(i as int).contains(k), |k: Seq<char>| None::<FrameView>),
        {
            let s = sources[i].clone();
            assert(s@ == ids[i as int]);
            let ghost before = compositor@.sources;
            compositor.register_source(s);
            proof {
                assert(ids.take(i + 1) =~= ids.take(i as int).push(ids[i as int]));
                assert forall|k: Seq<char>| ids.take(i + 1).contains(k) <==> (ids.take(i as int).contains(k) || k == ids[i as int]) by {
                    if ids.take(i + 1).contains(k) {
                        let j = choose|j: int| 0 <= j < ids.take(i + 1).len() && #[trigger] ids.take(i + 1)[j] == k;
                        if j < i {
                            assert(ids.take(i as int)[j] == k);
                        }
                    }
                    if ids.take(i as int).contains(k) {
                        let j = choose|j: int| 0 <= j < ids.take(i as int).len() && #[trigger] ids.take(i as int)[j] == k;
                        assert(ids.take(i + 1)[j] == k);
                    }
                    if k == ids[i as int] {
                        assert(ids.take(i + 1)[i as int] == k);
                    }
                }
                let target = Map::new(|k: Seq<char>| ids.take(i + 1).contains(k), |k: Seq<char>| None::<FrameView>);
                assert forall|k: Seq<char>| #[trigger] compositor@.sources.dom().contains(k) <==> target.dom().contains(k) by {
                    assert(target.dom().contains(k) == ids.take(i + 1).contains(k));
                    assert(before.dom().contains(k) == ids.take(i as int).contains(k));
                    assert(compositor@.sources.dom().contains(k) == (before.dom().contains(k) || k == ids[i as int]));
                }
                assert forall|k: Seq<char>| #[trigger] compositor@.sources.dom().contains(k) implies compositor@.sources[k] == target[k] by {
                }
                assert(compositor@.sources =~= target);
            }
        }
        assert(ids.take(n as int) =~= ids);
        compositor
    }
}

impl Default for CompositorBuilder {
    fn default() -> (b: Self)
        ensures
            b@ == (CompositorBuilderView { output_width: 1920, output_height: 1080, scene: None, sources: Seq::empty() }),
    {
        Self::new()
    }
}

} // verus!

verus! {

/// A frame pushed for a registered source is that source's latest frame.
pub proof fn law_push_then_get(v: CompositorView, id: Seq<char>, frame: FrameView)
    requires
        v.sources.dom().contains(id),
    ensures
        latest_frame(after_push(v, id, frame).sources, id) == Some(frame),
        after_push(v, id, frame).sources.dom() == v.sources.dom(),
{
    assert(after_push(v, id, frame).sources.dom() =~= v.sources.dom());
}

/// Pushing a frame for one source leaves every other source's latest frame as it was.
pub proof fn law_push_isolated(v: CompositorView, id: Seq<char>, other: Seq<char>, frame: FrameView)
    requires
        id != other,
    ensures
        latest_frame(after_push(v, id, frame).sources, other) == latest_frame(v.sources, other),
{
}

/// A source registered, or registered again, holds no frame.
pub proof fn law_register_clears(v: CompositorView, id: Seq<char>)
    ensures
        after_register(v, id).sources.dom().contains(id),
        latest_frame(after_register(v, id).sources, id) is None,
{
}

/// An unregistered source is gone: it holds no frame and a push to it is refused.
pub proof fn law_unregister_removes(v: CompositorView, id: Seq<char>)
    ensures
        !after_unregister(v, id).sources.dom().contains(id),
        latest_frame(after_unregister(v, id).sources, id) is None,
{
}

/// Changing the scene keeps every source and its latest frame, and the output
/// takes the scene's resolution.
pub proof fn law_set_scene_keeps_sources(v: CompositorView, scene: SceneView)
    ensures
        after_set_scene(v, scene).sources == v.sources,
        after_set_scene(v, scene).output_width == scene.resolution.width,
        after_set_scene(v, scene).output_height == scene.resolution.height,
{
}

/// Every layer drawn is visible and is drawn with its source's latest frame,
/// and no more layers are drawn than the scene has.
pub proof fn law_drawn_layers(layers: Seq<LayerView>, sources: Map<Seq<char>, Option<FrameView>>, k: int)
    ensures
        composite_selection(layers, sources).len() <= layers.len(),
        0 <= k < composite_selection(layers, sources).len() ==> {
            let p = composite_selection(layers, sources)[k];
            &&& p.0.visible
            &&& latest_frame(sources, p.0.source_id) == Some(p.1)
            &&& layers.contains(p.0)
        },
    decreases layers.len(),
{
    if layers.len() > 0 {
        let prev = composite_selection(layers.drop_last(), sources);
        law_drawn_layers(layers.drop_last(), sources, k);
        if 0 <= k < prev.len() {
            let p = prev[k];
            let j = choose|j: int| 0 <= j < layers.drop_last().len() && layers.drop_last()[j] == p.0;
            assert(layers[j] == p.0);
        }
        if k == prev.len() && k < composite_selection(layers, sources).len() {
            assert(layers[layers.len() - 1] == layers.last());
        }
    }
}

/// A layer that is visible and whose source holds a frame is drawn.
pub proof fn law_visible_layers_drawn(layers: Seq<LayerView>, sources: Map<Seq<char>, Option<FrameView>>, i: int)
    requires
        0 <= i < layers.len(),
        layers[i].visible,
        latest_frame(sources, layers[i].source_id) is Some,
    ensures
        composite_selection(layers, sources).contains((layers[i], latest_frame(sources, layers[i].source_id)->0)),
    decreases layers.len(),
{
    let sel = composite_selection(layers, sources);
    if i == layers.len() - 1 {
        assert(sel[sel.len() - 1] == (layers[i], latest_frame(sources, layers[i].source_id)->0));
    } else {
        assert(layers.drop_last()[i] == layers[i]);
        law_visible_layers_drawn(layers.drop_last(), sources, i);
        let prev = composite_selection(layers.drop_last(), sources);
        let j = choose|j: int| 0 <= j < prev.len() && prev[j] == (layers[i], latest_frame(sources, layers[i].source_id)->0);
        assert(sel[j] == prev[j]);
    }
}

/// The region of a layer lies within the output.
pub proof fn law_region_within_output(layer: LayerView, output_width: u32, output_height: u32)
    requires
        region_defined(layer, output_width, output_height),
    ensures
        layer_region_spec(layer, output_width, output_height).0 + layer_region_spec(layer, output_width, output_height).2 <= output_width,
        layer_region_spec(layer, output_width, output_height).1 + layer_region_spec(layer, output_width, output_height).3 <= output_height,
        layer_region_spec(layer, output_width, output_height).2 <= layer.size.width,
        layer_region_spec(layer, output_width, output_height).3 <= layer.size.height,
{
}

/// A built compositor has exactly the added sources registered, none holding a frame.
pub proof fn law_built_sources(b: CompositorBuilderView, id: Seq<char>)
    ensures
        built_compositor(b).sources.dom().contains(id) <==> b.sources.contains(id),
        latest_frame(built_compositor(b).sources, id) is None,
{
}

} // verus!
