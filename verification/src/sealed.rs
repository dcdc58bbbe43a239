//! The trait that closes other traits of this crate.
use vstd::prelude::*;

verus! {

/// Closes a trait of this crate to types of other crates: no other crate
/// can name this trait, so none can implement a trait that asks for it.
pub trait Sealed {

}

} // verus!
