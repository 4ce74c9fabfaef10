//! Core of a small real-time graphics runtime for a D3D12-style native API:
//! generation-checked slot pools for resources and pipelines, linear
//! descriptor-heap and upload-memory allocators, a content-addressed pipeline
//! cache, and the fence-based double-buffered frame-synchronization protocol.
//!
//! The native API itself (device, queue, swap chain, fence) is an external
//! capability: native objects appear here only as opaque integer identifiers,
//! and every operation that the native API must perform is returned to the
//! caller as a plain action value to carry out.

use vstd::prelude::*;

pub mod context;
pub mod d3d12;
pub mod fnv;
pub mod descriptor;
pub mod handles;
pub mod pipeline;
pub mod pool;
pub mod upload;

verus! {

} // verus!
