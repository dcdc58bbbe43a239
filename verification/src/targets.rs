//! The output languages, as types.
use vstd::prelude::*;
use crate::foreign::CompilerBackend;

verus! {

/// A tag for what a compiler instance puts out.
pub trait Target: Sized {
    /// The backend that the foreign library is asked for.
    spec fn spec_backend() -> CompilerBackend;

    /// The backend that the foreign library is asked for.
    fn backend() -> (b: CompilerBackend)
        ensures
            b == Self::spec_backend(),
    ;
}

/// A target that puts out source text. Only a compiler instance for such a
/// target takes the calls that shape the output.
pub trait CompilableTarget: Target {

}

/// Reflection only: nothing is put out.
#[derive(Clone, Copy, Debug, PartialEq, Eq)]
pub struct Reflect;

/// GLSL.
#[derive(Clone, Copy, Debug, PartialEq, Eq)]
pub struct Glsl;

/// HLSL.
#[derive(Clone, Copy, Debug, PartialEq, Eq)]
pub struct Hlsl;

/// Metal Shading Language.
#[derive(Clone, Copy, Debug, PartialEq, Eq)]
pub struct Msl;

/// C++.
#[derive(Clone, Copy, Debug, PartialEq, Eq)]
pub struct Cpp;

/// Reflection data as JSON.
#[derive(Clone, Copy, Debug, PartialEq, Eq)]
pub struct Json;

impl Target for Reflect {
    open spec fn spec_backend() -> CompilerBackend {
        CompilerBackend::Reflect
    }

    fn backend() -> (b: CompilerBackend) {
        CompilerBackend::Reflect
    }
}

impl Target for Glsl {
    open spec fn spec_backend() -> CompilerBackend {
        CompilerBackend::Glsl
    }

    fn backend() -> (b: CompilerBackend) {
        CompilerBackend::Glsl
    }
}

impl Target for Hlsl {
    open spec fn spec_backend() -> CompilerBackend {
        CompilerBackend::Hlsl
    }

    fn backend() -> (b: CompilerBackend) {
        CompilerBackend::Hlsl
    }
}

impl Target for Msl {
    open spec fn spec_backend() -> CompilerBackend {
        CompilerBackend::Msl
    }

    fn backend() -> (b: CompilerBackend) {
        CompilerBackend::Msl
    }
}

impl Target for Cpp {
    open spec fn spec_backend() -> CompilerBackend {
        CompilerBackend::Cpp
    }

    fn backend() -> (b: CompilerBackend) {
        CompilerBackend::Cpp
    }
}

impl Target for Json {
    open spec fn spec_backend() -> CompilerBackend {
        CompilerBackend::Json
    }

    fn backend() -> (b: CompilerBackend) {
        CompilerBackend::Json
    }
}

impl CompilableTarget for Glsl {

}

impl CompilableTarget for Hlsl {

}

impl CompilableTarget for Msl {

}

impl CompilableTarget for Cpp {

}

impl CompilableTarget for Json {

}

} // verus!
