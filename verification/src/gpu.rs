//! What lives on the GPU, as the core sees it.

use vstd::prelude::*;
use crate::errors::Error;
use crate::geom::Scalar;

pub mod render;
pub mod shaders;
pub mod tessellation;

verus! {

/// Builds a GPU-resident resource from its description on the CPU side and
/// from what the GPU made for it.
pub trait Factory<Spec>: Sized {
    /// What the GPU hands back for such a resource.
    type Gpu;

    fn produce(spec: Spec, gpu: Self::Gpu) -> Result<Self, Error>;
}

/// A mesh that lives on the GPU, by the name of its buffers there, with
/// the scale at which it is drawn.
#[derive(Clone, Copy, Debug, PartialEq, Eq, Structural)]
pub struct GpuMesh {
    pub id: u32,
    pub scale: Scalar,
}

} // verus!
