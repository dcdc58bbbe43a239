//! Identifiers tagged with the compiler instance that produced them.
use vstd::prelude::*;

verus! {

/// A kind of SPIR-V identifier: a number with a meaning.
pub trait Id: Sized {
    /// The number that this identifier wraps.
    spec fn raw(&self) -> u32;

    /// The number that this identifier wraps.
    fn id(&self) -> (r: u32)
        ensures
            r == self.raw(),
    ;
}

/// The identifier of a variable.
#[derive(Clone, Copy, Debug, PartialEq, Eq, Hash, Structural)]
pub struct VariableId(pub u32);

/// The identifier of a constant.
#[derive(Clone, Copy, Debug, PartialEq, Eq, Hash, Structural)]
pub struct ConstantId(pub u32);

/// The identifier of a type.
#[derive(Clone, Copy, Debug, PartialEq, Eq, Hash, Structural)]
pub struct TypeId(pub u32);

impl Id for VariableId {
    open spec fn raw(&self) -> u32 {
        self.0
    }

    fn id(&self) -> (r: u32) {
        self.0
    }
}

impl Id for ConstantId {
    open spec fn raw(&self) -> u32 {
        self.0
    }

    fn id(&self) -> (r: u32) {
        self.0
    }
}

impl Id for TypeId {
    open spec fn raw(&self) -> u32 {
        self.0
    }

    fn id(&self) -> (r: u32) {
        self.0
    }
}

/// An identifier together with the address of the compiler instance that
/// produced it. A handle is only good for that instance: presented to
/// another one it is refused. A handle owns nothing.
///
/// A `Handle<()>` refers to no SPIR-V object. It only shows which instance
/// issued it.
#[derive(Debug, PartialEq, Eq, Hash)]
pub struct Handle<T> {
    id: T,
    tag: usize,
}

impl<T: Copy> Clone for Handle<T> {
    fn clone(&self) -> (r: Self)
        ensures
            r == *self,
    {
        *self
    }
}

impl<T: Copy> Copy for Handle<T> {

}

impl<T> Handle<T> {
    /// The identifier inside the handle.
    pub closed spec fn inner(self) -> T {
        self.id
    }

    /// The address of the compiler instance that issued the handle.
    pub closed spec fn tag(self) -> usize {
        self.tag
    }

    /// The handle for `id` that the instance at address `tag` issues.
    pub closed spec fn minted(id: T, tag: usize) -> Handle<T> {
        Handle { id, tag }
    }

    /// A handle is its identifier and its tag, and nothing else.
    pub broadcast proof fn minted_parts(id: T, tag: usize)
        ensures
            (#[trigger] Self::minted(id, tag)).inner() == id,
            Self::minted(id, tag).tag() == tag,
    {
    }

    /// Two handles with the same identifier and the same tag are the same
    /// handle.
    pub proof fn same_parts_same_handle(self, other: Handle<T>)
        requires
            self.inner() == other.inner(),
            self.tag() == other.tag(),
        ensures
            self == other,
    {
    }

    /// Stamps `id` with the address of a compiler instance. Only a compiler
    /// instance, or its phantom, does this, with its own address.
    pub(crate) fn mint(id: T, tag: usize) -> (h: Handle<T>)
        ensures
            h == Self::minted(id, tag),
    {
        Handle { id, tag }
    }

    /// Whether the instance at address `tag` issued the handle.
    pub(crate) fn issued_by(&self, tag: usize) -> (r: bool)
        ensures
            r == (self.tag() == tag),
    {
        self.tag == tag
    }

    /// The identifier inside the handle, whoever issued it.
    pub(crate) fn unchecked_inner(self) -> (r: T)
        ensures
            r == self.inner(),
    {
        self.id
    }
}

impl<T: Id> Handle<T> {
    /// The number of the identifier inside the handle.
    pub fn id(&self) -> (r: u32)
        ensures
            r == self.inner().raw(),
    {
        self.id.id()
    }
}

} // verus!
