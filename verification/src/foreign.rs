//! The calls that the foreign library is asked to make.
use vstd::prelude::*;
use crate::string::MaybeOwnedCString;

verus! {

/// The output language of a compiler instance.
#[derive(Clone, Copy, Debug, PartialEq, Eq, Hash, Structural)]
pub enum CompilerBackend {
    /// No output: the instance only reflects.
    Reflect,
    Glsl,
    Hlsl,
    Msl,
    Cpp,
    Json,
}

/// What becomes of the parsed module when a compiler is created from it.
#[derive(Clone, Copy, Debug, PartialEq, Eq, Hash, Structural)]
pub enum CaptureMode {
    /// The compiler works on a copy.
    Copy,
    /// The compiler takes the parsed module over.
    TakeOwnership,
}

/// A SPIR-V execution mode, by its number.
#[derive(Clone, Copy, Debug, PartialEq, Eq, Hash, Structural)]
pub struct ExecutionMode(pub u32);

/// A SPIR-V built-in, by its number.
#[derive(Clone, Copy, Debug, PartialEq, Eq, Hash, Structural)]
pub struct BuiltIn(pub u32);

/// One call of the foreign library, with the values to pass. An address
/// under `context` is that of a context, one under `compiler` that of a
/// compiler instance. The caller makes the call as it stands.
#[derive(Debug, PartialEq, Eq)]
pub enum ForeignCall<'a> {
    /// Parse `words` into a module that the context owns.
    ParseSpirv { context: usize, words: &'a [u32] },
    /// Create a compiler instance from the parsed module at `ir`.
    CreateCompiler { context: usize, backend: CompilerBackend, ir: usize, capture: CaptureMode },
    /// Add a line to the head of the output.
    AddHeaderLine { compiler: usize, line: MaybeOwnedCString },
    /// Demand an extension in the output.
    RequireExtension { compiler: usize, extension: MaybeOwnedCString },
    /// Flatten the buffer block `block` into an array.
    FlattenBufferBlock { compiler: usize, block: u32 },
    /// Hide a stage output, given by location and component.
    MaskStageOutputByLocation { compiler: usize, location: u32, component: u32 },
    /// Hide a stage output, given by built-in.
    MaskStageOutputByBuiltin { compiler: usize, builtin: BuiltIn },
    /// Ask whether `variable` is used for depth comparison.
    VariableIsDepthOrCompare { compiler: usize, variable: u32 },
    /// Remove an execution mode.
    UnsetExecutionMode { compiler: usize, mode: ExecutionMode },
    /// Set an execution mode, with its three arguments.
    SetExecutionModeWithArguments { compiler: usize, mode: ExecutionMode, x: u32, y: u32, z: u32 },
    /// Reroute separate images and samplers to combined image samplers.
    BuildCombinedImageSamplers { compiler: usize },
}

} // verus!
