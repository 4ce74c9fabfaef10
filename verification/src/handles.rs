//! Opaque (index, generation) capability tokens referencing pooled objects.
//!
//! Index 0 is reserved as invalid. A handle carries no ownership: it resolves
//! to a live pool slot only while the slot's stored generation still matches.

use vstd::prelude::*;

verus! {

/// Handle to a pooled GPU resource (buffer or texture).
#[derive(Debug, Clone, Copy, PartialEq, Eq, Structural)]
pub struct Dx12ResourceHandle {
    pub index: u16,
    pub generation: u16,
}

/// Handle to a pooled pipeline-state object plus its root signature.
#[derive(Debug, Clone, Copy, PartialEq, Eq, Structural)]
pub struct Dx12PipelineHandle {
    pub index: u16,
    pub generation: u16,
}

impl Dx12PipelineHandle {
    /// Sentinel meaning "no pipeline bound"; forces the next bind to take effect.
    pub open spec fn spec_invalid() -> Dx12PipelineHandle {
        Dx12PipelineHandle { index: 0, generation: 0 }
    }

    /// Sentinel meaning "no pipeline bound"; forces the next bind to take effect.
    pub fn invalid() -> (h: Dx12PipelineHandle)
        ensures
            h == Dx12PipelineHandle::spec_invalid(),
    {
        Dx12PipelineHandle { index: 0, generation: 0 }
    }
}

} // verus!
