//! Helper trait for dynamic dispatch on sources.
use vstd::prelude::*;
use crate::source_bus::SourceBus;

verus! {

/// Helper to allow dynamic dispatch on source implementations
pub trait SourceBusDyn: SourceBus {}

impl<T: SourceBus> SourceBusDyn for T {}

} // verus!
