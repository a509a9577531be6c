//! Verified core of a multi-source video studio: frames, scenes, compositing,
//! virtual-camera output and capture sources.
use vstd::prelude::*;

pub mod clock;
pub mod compositor;
pub mod editor;
pub mod frame;
pub mod json;
pub mod output;
pub mod pacing;
pub mod scene;
pub mod source_bus;
pub mod sources;
pub mod spike;
pub mod studio;
pub mod text;

pub use studio::SourceHealth;

verus! {
} // verus!
