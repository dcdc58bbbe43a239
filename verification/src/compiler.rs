//! The compiler instance, and what it lets through to the foreign library.
use std::marker::PhantomData;
use vstd::prelude::*;
use crate::context::ContextRoot;
use crate::error::{invalid_operation, ErrorView, ForeignStatus, SpirvCrossError, result_view};
use crate::foreign::{BuiltIn, ForeignCall};
use crate::handle::{Handle, Id, VariableId};
use crate::string::{CStringView, ContextStr};
use crate::targets::CompilableTarget;

verus! {

/// One compiler instance of the foreign library, for the target `T`, in a
/// context that lives for `'a`.
///
/// The instance is known by its address and keeps the root of the context
/// that owns it. It issues the handles for the identifiers that the foreign
/// library reports, and lets a handle through to the foreign library only
/// if it issued that handle itself.
pub struct Compiler<'a, T> {
    ptr: usize,
    ctx: ContextRoot,
    /// How many proofs the instance has issued.
    issued: u64,
    /// The numbers of the proofs that were issued and not yet redeemed,
    /// each once.
    outstanding: Vec<u64>,
    _pd: PhantomData<&'a T>,
}

/// A compiler instance with its target forgotten. All it can do is issue
/// handles in the name of the instance and name the context that the
/// instance lives in. The parts of a compiler instance that outlive one
/// borrow of it carry one.
#[derive(Clone, Copy, Debug, PartialEq, Eq)]
pub struct PhantomCompiler<'a> {
    ptr: usize,
    ctx: usize,
    _pd: PhantomData<&'a ()>,
}

/// Where `number` stands among `numbers`, if it does.
fn position_of(numbers: &Vec<u64>, number: u64) -> (at: Option<usize>)
    ensures
        match at {
            Some(i) => i < numbers@.len() && numbers@[i as int] == number,
            None => !numbers@.contains(number),
        },
        at is Some == numbers@.to_set().contains(number),
{
    let mut i: usize = 0;
    while i < numbers.len()
        invariant
            0 <= i <= numbers@.len(),
            forall|j: int| 0 <= j < i ==> numbers@[j] != number,
        decreases numbers@.len() - i,
    {
        if numbers[i] == number {
            return Some(i);
        }
        i = i + 1;
    }
    None
}

/// A number added to a list that does not hold it is added to its set, and
/// the list still holds each number once.
proof fn pushed_number(numbers: Seq<u64>, number: u64)
    requires
        numbers.no_duplicates(),
        !numbers.contains(number),
    ensures
        numbers.push(number).no_duplicates(),
        numbers.push(number).to_set() == numbers.to_set().insert(number),
{
    let pushed = numbers.push(number);
    assert forall|x: u64| pushed.to_set().contains(x) <==> numbers.to_set().insert(
        number,
    ).contains(x) by {
        if pushed.contains(x) {
            let k = choose|k: int| 0 <= k < pushed.len() && pushed[k] == x;
            if k < numbers.len() {
                assert(numbers[k] == x);
            }
        }
        if numbers.contains(x) {
            let k = choose|k: int| 0 <= k < numbers.len() && numbers[k] == x;
            assert(pushed[k] == x);
        }
        if x == number {
            assert(pushed[numbers.len() as int] == x);
        }
    }
    assert(pushed.to_set() =~= numbers.to_set().insert(number));
}

/// A number taken out of a list that holds each number once is taken out
/// of its set, and the list still holds each number once.
proof fn removed_number(numbers: Seq<u64>, i: int)
    requires
        numbers.no_duplicates(),
        0 <= i < numbers.len(),
    ensures
        numbers.remove(i).no_duplicates(),
        numbers.remove(i).to_set() == numbers.to_set().remove(numbers[i]),
{
    let rest = numbers.remove(i);
    assert forall|x: u64| rest.to_set().contains(x) <==> numbers.to_set().remove(
        numbers[i],
    ).contains(x) by {
        if rest.contains(x) {
            let k = choose|k: int| 0 <= k < rest.len() && rest[k] == x;
            if k < i {
                assert(numbers[k] == x);
            } else {
                assert(numbers[k + 1] == x);
            }
        }
        if numbers.contains(x) && x != numbers[i] {
            let k = choose|k: int| 0 <= k < numbers.len() && numbers[k] == x;
            if k < i {
                assert(rest[k] == x);
            } else {
                assert(rest[k - 1] == x);
            }
        }
    }
    assert(rest.to_set() =~= numbers.to_set().remove(numbers[i]));
}

/// The text of the error for a handle that another instance issued.
pub open spec fn invalid_handle_text() -> Seq<char> {
    "The provided handle is invalid for this compiler instance"@
}

impl<'a> PhantomCompiler<'a> {
    /// The address of the compiler instance.
    pub closed spec fn addr(self) -> usize {
        self.ptr
    }

    /// The address of the context that the instance lives in.
    pub closed spec fn context_addr(self) -> usize {
        self.ctx
    }

    /// Issues the handle for `id` in the name of the instance.
    pub fn create_handle<I>(&self, id: I) -> (h: Handle<I>)
        ensures
            h == Handle::minted(id, self.addr()),
    {
        Handle::mint(id, self.ptr)
    }

}

impl<'a> crate::ContextRooted for PhantomCompiler<'a> {
    open spec fn rooted_in(&self) -> usize {
        self.context_addr()
    }

    fn context(&self) -> (p: usize) {
        self.ctx
    }
}

impl<'a, T> Compiler<'a, T> {
    #[verifier::type_invariant]
    spec fn well_formed(self) -> bool {
        &&& self.ptr != 0
        &&& self.outstanding@.no_duplicates()
        &&& forall|i: int| 0 <= i < self.outstanding@.len() ==> self.outstanding@[i] < self.issued
    }

    /// The address of the foreign compiler instance.
    pub closed spec fn addr(self) -> usize {
        self.ptr
    }

    /// The root of the context that the instance lives in.
    pub closed spec fn root(self) -> ContextRoot {
        self.ctx
    }

    /// How many proofs the instance has issued. The proofs are numbered in
    /// the order in which they were issued, from zero on.
    pub closed spec fn issued(self) -> u64 {
        self.issued
    }

    /// The numbers of the proofs that the instance has issued and that have
    /// not been redeemed.
    pub closed spec fn outstanding(self) -> Set<u64> {
        self.outstanding@.to_set()
    }

    /// Whether the instance issued `handle`: whether the tag of the handle
    /// is the address of the instance.
    pub open spec fn accepts<I>(self, handle: Handle<I>) -> bool {
        handle.tag() == self.addr()
    }

    /// What `yield_id` returns for `handle`.
    pub open spec fn yields<I>(self, handle: Handle<I>) -> Result<I, ErrorView> {
        if self.accepts(handle) {
            Ok(handle.inner())
        } else {
            Err(ErrorView::InvalidOperation(invalid_handle_text()))
        }
    }

    /// Wraps the foreign compiler instance at address `ptr`, which lives in
    /// the context of `ctx`. No proof has been issued yet.
    pub(crate) fn new_from_raw(ptr: usize, ctx: ContextRoot) -> (c: Compiler<'a, T>)
        requires
            ptr != 0,
        ensures
            c.addr() == ptr,
            c.root() == ctx,
            c.issued() == 0,
            c.outstanding() == Set::<u64>::empty(),
    {
        let outstanding: Vec<u64> = Vec::new();
        assert(outstanding@.to_set() =~= Set::<u64>::empty());
        Compiler { ptr, ctx, issued: 0, outstanding, _pd: PhantomData }
    }

    /// The address of the foreign compiler instance, which is never null.
    pub fn ptr(&self) -> (p: usize)
        ensures
            p == self.addr(),
            p != 0,
    {
        proof {
            use_type_invariant(self);
        }
        self.ptr
    }

    /// The root of the context that the instance lives in.
    pub fn context_root(&self) -> (root: ContextRoot)
        ensures
            root == self.root(),
    {
        self.ctx
    }

    /// The instance with its target forgotten, for the parts that have to
    /// issue handles or name the context after this borrow has ended.
    pub fn phantom(&self) -> (p: PhantomCompiler<'a>)
        ensures
            p.addr() == self.addr(),
            p.context_addr() == self.root().context(),
    {
        PhantomCompiler { ptr: self.ptr, ctx: self.ctx.ptr(), _pd: PhantomData }
    }

    /// Issues the handle for `id`. The caller vouches that `id` names an
    /// object of this instance: this is how identifiers that the foreign
    /// library reported become handles.
    pub fn create_handle<I>(&self, id: I) -> (h: Handle<I>)
        ensures
            h == Handle::minted(id, self.addr()),
            self.accepts(h),
    {
        proof {
            Handle::minted_parts(id, self.ptr);
        }
        Handle::mint(id, self.ptr)
    }

    /// Issues the handle for `id`, unless `id` is zero, which the foreign
    /// library reports where there is no object.
    pub fn create_handle_if_not_zero<I: Id>(&self, id: I) -> (h: Option<Handle<I>>)
        ensures
            h == if id.raw() == 0 {
                None
            } else {
                Some(Handle::minted(id, self.addr()))
            },
    {
        if id.id() == 0 {
            None
        } else {
            Some(Handle::mint(id, self.ptr))
        }
    }

    /// Whether this instance issued `handle`.
    pub fn handle_is_valid<I>(&self, handle: &Handle<I>) -> (r: bool)
        ensures
            r == self.accepts(*handle),
    {
        handle.issued_by(self.ptr)
    }

    /// The identifier inside `handle`, if this instance issued the handle.
    /// A handle of another instance is refused here, before anything of it
    /// reaches the foreign library.
    pub fn yield_id<I>(&self, handle: Handle<I>) -> (r: Result<I, SpirvCrossError>)
        ensures
            result_view(r) == self.yields(handle),
    {
        if handle.issued_by(self.ptr) {
            Ok(handle.unchecked_inner())
        } else {
            Err(invalid_operation("The provided handle is invalid for this compiler instance"))
        }
    }

    /// How many proofs the instance has issued.
    pub fn proofs_issued(&self) -> (n: u64)
        ensures
            n == self.issued(),
    {
        self.issued
    }

    /// Issues the number of a new proof, one that no proof of the instance
    /// had before, and notes it as not yet redeemed. The proofs issued
    /// before stay as they are.
    pub(crate) fn issue_serial(&mut self) -> (serial: u64)
        requires
            old(self).issued() < u64::MAX,
        ensures
            final(self).addr() == old(self).addr(),
            final(self).root() == old(self).root(),
            serial == old(self).issued(),
            final(self).issued() == old(self).issued() + 1,
            !old(self).outstanding().contains(serial),
            final(self).outstanding() == old(self).outstanding().insert(serial),
    {
        proof {
            use_type_invariant(&*self);
        }
        let serial = self.issued;
        // The list is taken out while it grows, so that the instance is
        // well formed at every step.
        let mut numbers: Vec<u64> = Vec::new();
        std::mem::swap(&mut numbers, &mut self.outstanding);
        let ghost before = numbers@;
        assert(!before.contains(serial)) by {
            if before.contains(serial) {
                let k = choose|k: int| 0 <= k < before.len() && before[k] == serial;
                assert(before[k] < serial);
            }
        }
        numbers.push(serial);
        proof {
            pushed_number(before, serial);
        }
        self.issued = serial + 1;
        std::mem::swap(&mut numbers, &mut self.outstanding);
        serial
    }

    /// Redeems the proof with the number `serial`, if it was issued and not
    /// yet redeemed. The other proofs stay as they are.
    pub(crate) fn redeem_serial(&mut self, serial: u64) -> (redeemed: bool)
        ensures
            final(self).addr() == old(self).addr(),
            final(self).root() == old(self).root(),
            final(self).issued() == old(self).issued(),
            redeemed == old(self).outstanding().contains(serial),
            redeemed ==> final(self).outstanding() == old(self).outstanding().remove(serial),
            !redeemed ==> *final(self) == *old(self),
    {
        proof {
            use_type_invariant(&*self);
        }
        match position_of(&self.outstanding, serial) {
            Some(i) => {
                let mut numbers: Vec<u64> = Vec::new();
                std::mem::swap(&mut numbers, &mut self.outstanding);
                let ghost before = numbers@;
                numbers.remove(i);
                proof {
                    removed_number(before, i as int);
                    assert forall|j: int| 0 <= j < numbers@.len() implies numbers@[j]
                        < self.issued by {
                        if j < i {
                            assert(numbers@[j] == before[j]);
                        } else {
                            assert(numbers@[j] == before[j + 1]);
                        }
                    }
                }
                std::mem::swap(&mut numbers, &mut self.outstanding);
                true
            },
            None => false,
        }
    }

    /// Turns the status of a foreign call on this instance into a result.
    pub fn finish(&self, status: ForeignStatus) -> (r: Result<(), SpirvCrossError>)
        ensures
            result_view(r) == status.translated(self.root().context()),
    {
        status.ok(self.ctx.ptr())
    }

    /// Wraps a string that this instance reported and that the context
    /// keeps, unchanged, for as long as it lives: `ptr` is its address,
    /// `bytes` are its bytes up to the closing zero.
    pub fn context_str(&self, ptr: usize, bytes: &'a [u8]) -> (s: ContextStr<'a>)
        requires
            ptr != 0,
            crate::string::nul_free(bytes@),
        ensures
            s.wraps(ptr, bytes@, self.root()),
            s.pointer() is Some ==> crate::string::nul_free(s.bytes()),
    {
        ContextStr::from_ptr(ptr, bytes, self.ctx)
    }

    /// Wraps a string that this instance reported and that stays unchanged
    /// only until the next mutating call: `ptr` is its address, `bytes` are
    /// its bytes up to the closing zero. The string borrows the instance, so
    /// no mutating call can be made while the string is in use.
    pub fn short_lived_str<'s>(&'s self, ptr: usize, bytes: &'s [u8]) -> (s: ContextStr<'s>)
        requires
            ptr != 0,
            crate::string::nul_free(bytes@),
        ensures
            s.wraps(ptr, bytes@, self.root()),
            s.pointer() is Some ==> crate::string::nul_free(s.bytes()),
    {
        ContextStr::from_ptr(ptr, bytes, self.ctx)
    }
}

impl<'a, T> crate::ContextRooted for Compiler<'a, T> {
    open spec fn rooted_in(&self) -> usize {
        self.root().context()
    }

    fn context(&self) -> (p: usize) {
        self.ctx.ptr()
    }
}

/// What `add_header_line` and `require_extension` send for `text`: the text
/// as a fresh zero-terminated copy, or the refusal of a text with an
/// embedded zero byte.
pub open spec fn text_argument(text: Seq<char>) -> Result<Seq<u8>, ErrorView> {
    let bytes = vstd::utf8::encode_utf8(text);
    if crate::string::nul_free(bytes) {
        Ok(bytes.push(0u8))
    } else {
        Err(
            ErrorView::InvalidString(
                crate::error::NulError { nul_position: crate::string::first_nul(bytes) as usize },
            ),
        )
    }
}

/// Calls that shape the output. Each of them changes the foreign instance,
/// so each takes the instance exclusively; what is known of the instance
/// here stays as it is.
impl<'a, T: CompilableTarget> Compiler<'a, T> {
    /// Adds a line to the head of the output. The line goes to the foreign
    /// library as a zero-terminated copy; a line with an embedded zero byte
    /// is refused.
    pub fn add_header_line(&mut self, line: &str) -> (r: Result<
        ForeignCall<'static>,
        SpirvCrossError,
    >)
        ensures
            *final(self) == *old(self),
            match text_argument(line@) {
                Ok(bytes) => r matches Ok(ForeignCall::AddHeaderLine { compiler, line: sent })
                    && compiler == old(self).addr() && sent@ == CStringView::Owned(bytes),
                Err(e) => r matches Err(error) && error@ == e,
            },
    {
        let text = ContextStr::from_str(line);
        match text.to_cstring_ptr() {
            Ok(sent) => Ok(ForeignCall::AddHeaderLine { compiler: self.ptr, line: sent }),
            Err(e) => Err(SpirvCrossError::from_nul_error(e)),
        }
    }

    /// Demands an extension in the output. The name goes to the foreign
    /// library as a zero-terminated copy; a name with an embedded zero byte
    /// is refused.
    pub fn require_extension(&mut self, ext: &str) -> (r: Result<
        ForeignCall<'static>,
        SpirvCrossError,
    >)
        ensures
            *final(self) == *old(self),
            match text_argument(ext@) {
                Ok(bytes) => r matches Ok(ForeignCall::RequireExtension { compiler, extension })
                    && compiler == old(self).addr() && extension@ == CStringView::Owned(bytes),
                Err(e) => r matches Err(error) && error@ == e,
            },
    {
        let text = ContextStr::from_str(ext);
        match text.to_cstring_ptr() {
            Ok(extension) => Ok(ForeignCall::RequireExtension { compiler: self.ptr, extension }),
            Err(e) => Err(SpirvCrossError::from_nul_error(e)),
        }
    }

    /// Flattens a buffer block into an array. The block is named by a
    /// handle, which has to be one of this instance.
    pub fn flatten_buffer_block(&mut self, block: Handle<VariableId>) -> (r: Result<
        ForeignCall<'static>,
        SpirvCrossError,
    >)
        ensures
            *final(self) == *old(self),
            match old(self).yields(block) {
                Ok(id) => r == Ok::<ForeignCall<'static>, SpirvCrossError>(
                    ForeignCall::FlattenBufferBlock { compiler: old(self).addr(), block: id.0 },
                ),
                Err(e) => r is Err && r->Err_0@ == e,
            },
    {
        match self.yield_id(block) {
            Ok(id) => Ok(ForeignCall::FlattenBufferBlock { compiler: self.ptr, block: id.id() }),
            Err(e) => Err(e),
        }
    }

    /// Hides the stage output at `location` and `component`.
    pub fn mask_stage_output_by_location(&mut self, location: u32, component: u32) -> (call:
        ForeignCall<'static>)
        ensures
            *final(self) == *old(self),
            call == (ForeignCall::MaskStageOutputByLocation {
                compiler: old(self).addr(),
                location,
                component,
            }),
    {
        ForeignCall::MaskStageOutputByLocation { compiler: self.ptr, location, component }
    }

    /// Hides the stage output for `builtin`.
    pub fn mask_stage_output_by_builtin(&mut self, builtin: BuiltIn) -> (call: ForeignCall<
        'static,
    >)
        ensures
            *final(self) == *old(self),
            call == (ForeignCall::MaskStageOutputByBuiltin {
                compiler: old(self).addr(),
                builtin,
            }),
    {
        ForeignCall::MaskStageOutputByBuiltin { compiler: self.ptr, builtin }
    }

    /// Asks whether a variable is used for depth comparison. The variable
    /// is named by a handle, which has to be one of this instance.
    pub fn variable_is_depth_or_compare(&self, variable: Handle<VariableId>) -> (r: Result<
        ForeignCall<'static>,
        SpirvCrossError,
    >)
        ensures
            match self.yields(variable) {
                Ok(id) => r == Ok::<ForeignCall<'static>, SpirvCrossError>(
                    ForeignCall::VariableIsDepthOrCompare { compiler: self.addr(), variable: id.0 },
                ),
                Err(e) => r is Err && r->Err_0@ == e,
            },
    {
        match self.yield_id(variable) {
            Ok(id) => Ok(
                ForeignCall::VariableIsDepthOrCompare { compiler: self.ptr, variable: id.id() },
            ),
            Err(e) => Err(e),
        }
    }
}

/// A handle that one compiler instance issued is no handle of any other
/// instance: every other instance refuses it, and yields no identifier for
/// it that could go on to the foreign library.
pub proof fn foreign_handle_is_refused<'a, 'b, T, U, I>(
    a: Compiler<'a, T>,
    b: Compiler<'b, U>,
    id: I,
)
    requires
        a.addr() != b.addr(),
    ensures
        a.accepts(Handle::minted(id, a.addr())),
        !b.accepts(Handle::minted(id, a.addr())),
        b.yields(Handle::minted(id, a.addr())) == Err::<I, ErrorView>(
            ErrorView::InvalidOperation(invalid_handle_text()),
        ),
{
    Handle::minted_parts(id, a.addr());
}

} // verus!
