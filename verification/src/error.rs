use vstd::prelude::*;
use crate::command::Uniform;

verus! {

/// Why the simulation could not be set up, or why a request was turned down.
#[derive(Debug, PartialEq, Eq)]
pub enum FluidError {
    /// The graphics context handed out no object; fatal at start-up.
    ResourceCreation(String),
    /// A shader stage did not compile; carries the compiler's diagnostic.
    /// Fatal at start-up.
    ShaderCompile(String),
    /// The program did not link; carries the linker's diagnostic. Fatal at
    /// start-up.
    ProgramLink(String),
    /// A seed buffer does not hold four values per texel of a
    /// `width` x `height` field. The field that was to be replaced stays.
    DataSizeMismatch { width: i32, height: i32, actual: usize },
    /// A uniform was set that the render pass did not declare.
    UnknownUniform(Uniform),
    /// Float textures are missing; carries the name of the missing extension.
    UnsupportedCapability(String),
}

} // verus!
