//! The one error channel of the core.

use vstd::prelude::*;

verus! {

/// Why an operation of the core failed.
#[derive(Clone, Copy, Debug, PartialEq, Eq, Structural)]
pub enum Error {
    /// A GPU resource (a texture, a program, a mesh buffer) could not be made,
    /// or what was made is not what was asked for.
    Allocation,
    /// A shader failed to draw.
    Draw,
    /// An outline could not be triangulated, or the triangulation breaks the
    /// vertex and index contract.
    Tessellation,
}

} // verus!
