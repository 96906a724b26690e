//! Opaque identifiers of GPU-side objects owned by the GPU backend.
use vstd::prelude::*;

verus! {

/// Identifier of a render pipeline in the GPU backend's resource table.
#[derive(Clone, Copy, Debug, PartialEq, Eq, Structural, Hash)]
pub struct WebGPURenderPipeline(pub u64);

/// Identifier of a bind-group layout in the GPU backend's resource table.
#[derive(Clone, Copy, Debug, PartialEq, Eq, Structural, Hash)]
pub struct WebGPUBindGroupLayout(pub u64);

} // verus!
