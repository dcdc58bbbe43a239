//! Lifetime, ownership and handle safety for a binding to SPIRV-Cross.
//!
//! SPIRV-Cross is driven through a C interface of raw pointers: a context
//! that owns every allocation, compiler instances created from it, and
//! strings and arrays that live inside the context. This crate holds the
//! rules that make that interface safe to use, as verified code over plain
//! values. A foreign object is known here by its address, a foreign string
//! by its address and its bytes. Each operation either names the foreign
//! call that the caller has to make, with its arguments, or takes what a
//! foreign call returned and says what it means.
use vstd::prelude::*;

pub mod error;
pub mod handle;
pub mod context;
pub mod string;
pub mod foreign;
pub mod targets;
pub mod compiler;
pub mod builder;
pub mod combined_image_samplers;
pub mod execution_modes;
mod sealed;

verus! {

/// For what lives in a context: names that context.
pub trait ContextRooted {
    /// The address of the context.
    spec fn rooted_in(&self) -> usize;

    /// The address of the context, by which an error says where it came
    /// from.
    fn context(&self) -> (p: usize)
        ensures
            p == self.rooted_in(),
    ;
}

/// For a value that is bound to the lifetime of a context or of a compiler
/// instance: gives a copy that is bound to neither.
pub trait ToStatic: crate::sealed::Sealed {
    /// The type of the copy.
    type Static;

    /// A copy of the value that borrows nothing.
    fn to_static(&self) -> Self::Static;
}

} // verus!
