//! From SPIR-V words to a compiler instance, in two foreign calls.
use std::marker::PhantomData;
use vstd::prelude::*;
use crate::compiler::Compiler;
use crate::context::{ContextRoot, LedgerView, RootAction, RootEvent, RootLedger, SpirvCrossContext};
use crate::error::{out_of_memory, out_of_memory_text, ErrorView, ForeignStatus, SpirvCrossError};
use crate::foreign::{CaptureMode, ForeignCall};
use crate::targets::Target;

verus! {

/// A SPIR-V module, as its words.
#[derive(Clone, Copy, Debug, PartialEq, Eq)]
pub struct Module<'a> {
    words: &'a [u32],
}

impl<'a> View for Module<'a> {
    type V = Seq<u32>;

    closed spec fn view(&self) -> Seq<u32> {
        self.words@
    }
}

impl<'a> Module<'a> {
    /// A module made of the given words.
    pub fn from_words(words: &'a [u32]) -> (m: Module<'a>)
        ensures
            m@ == words@,
    {
        Module { words }
    }

    /// The words of the module.
    pub fn words(&self) -> (w: &'a [u32])
        ensures
            w@ == self@,
    {
        self.words
    }
}

/// How far the making of a compiler instance has come.
#[derive(Clone, Copy, Debug, PartialEq, Eq, Structural)]
pub enum BuildStage {
    /// The module has to be parsed.
    Parse,
    /// The module is parsed, at address `ir` in the context; the compiler
    /// has to be created from it.
    Create { ir: usize },
}

/// How the compiler instance in the making will stand to its context.
#[derive(Clone, Copy, Debug, PartialEq, Eq, Structural)]
pub enum Rooting {
    /// It borrows the context.
    Borrowed,
    /// It takes a share of a context that is under shared ownership.
    Shared,
    /// It takes the context over from the binding that owned it.
    Taken,
}

/// A compiler instance in the making.
///
/// Making one takes two foreign calls: the module is parsed, and the
/// compiler is created from the parsed module, which it takes over. The
/// builder names the call to make next (`request`) and takes its outcome
/// (`advance`). Either call may fail. Nothing is left to free then: the
/// parsed module belongs to the context and goes with it.
///
/// A builder holds no share of a context: whatever becomes of it, every
/// book stays as it was. One that took its context over owns that context
/// until its last step, which says what becomes of the context; to give
/// such a making up on the way, call `abandon`.
pub struct CompilerBuilder<'m, 'a, T> {
    context: usize,
    rooting: Rooting,
    taken: Option<SpirvCrossContext>,
    spirv: Module<'m>,
    stage: BuildStage,
    _pd: PhantomData<&'a T>,
}

/// A compiler instance of the foreign library that exists and has yet to
/// take its share of the context.
pub struct Unshared<'a, T> {
    ptr: usize,
    context: usize,
    _pd: PhantomData<&'a T>,
}

/// Where the making of a compiler instance stands after a foreign call.
pub enum BuildStep<'m, 'a, T> {
    /// Another call has to be made: the one that the builder requests.
    Call(CompilerBuilder<'m, 'a, T>),
    /// The compiler instance exists, and borrows its context.
    Done(Compiler<'a, T>),
    /// The compiler instance exists and has taken its context over. The
    /// context is now under shared ownership, with the instance as its
    /// only holder: this is its book.
    Promoted(Compiler<'a, T>, RootLedger),
    /// The compiler instance exists. It becomes usable by taking its share
    /// of the context (`Unshared::share`).
    Share(Unshared<'a, T>),
    /// No compiler instance was made. `action` says what becomes of the
    /// context: one that the builder had taken over is destroyed, any
    /// other stays.
    Failed { error: SpirvCrossError, action: RootAction },
}

/// What becomes of the context when the making fails.
pub open spec fn action_on_failure(rooting: Rooting) -> RootAction {
    match rooting {
        Rooting::Taken => RootAction::Destroy,
        _ => RootAction::Keep,
    }
}

/// The root that a compiler instance has in the context at `context`.
pub open spec fn root_for(rooting: Rooting, context: usize) -> ContextRoot {
    match rooting {
        Rooting::Borrowed => ContextRoot::Borrowed(context),
        _ => ContextRoot::RefCounted(context),
    }
}

impl<'a, T> Unshared<'a, T> {
    #[verifier::type_invariant]
    spec fn nonnull(self) -> bool {
        self.ptr != 0
    }

    /// The address of the foreign compiler instance.
    pub closed spec fn addr(self) -> usize {
        self.ptr
    }

    /// The address of the context that the instance lives in.
    pub closed spec fn context_addr(self) -> usize {
        self.context
    }

    /// The address of the context that the instance lives in.
    pub fn context(&self) -> (p: usize)
        ensures
            p == self.context_addr(),
    {
        self.context
    }

    /// Takes the share of the instance in its context and hands the
    /// instance out. `ledger` is the book of that context.
    ///
    /// Where `ledger` is the book of another context, or cannot take
    /// another holder, no share is taken and no instance is handed out.
    pub fn share(self, ledger: &mut RootLedger) -> (compiler: Option<Compiler<'a, T>>)
        requires
            old(ledger)@.wf(),
        ensures
            final(ledger)@.wf(),
            old(ledger)@.context == self.context_addr() && old(ledger)@.admits(RootEvent::Share)
                ==> {
                &&& final(ledger)@ == old(ledger)@.step(RootEvent::Share)
                &&& compiler is Some
                &&& compiler->Some_0.addr() == self.addr()
                &&& compiler->Some_0.root() == ContextRoot::RefCounted(self.context_addr())
                &&& compiler->Some_0.issued() == 0
                &&& compiler->Some_0.outstanding() == Set::<u64>::empty()
            },
            !(old(ledger)@.context == self.context_addr() && old(ledger)@.admits(
                RootEvent::Share,
            )) ==> {
                &&& final(ledger)@ == old(ledger)@
                &&& compiler is None
            },
    {
        proof {
            use_type_invariant(&self);
        }
        if ledger.context() != self.context {
            return None;
        }
        match ledger.share() {
            Some(root) => Some(Compiler::new_from_raw(self.ptr, root)),
            None => None,
        }
    }
}

impl<'m, 'a, T> CompilerBuilder<'m, 'a, T> {
    #[verifier::type_invariant]
    spec fn consistent(self) -> bool {
        match self.taken {
            Some(context) => self.rooting == Rooting::Taken && context.addr() == self.context,
            None => self.rooting != Rooting::Taken,
        }
    }
}

impl<'m, 'a, T: Target> CompilerBuilder<'m, 'a, T> {
    /// The address of the context that the compiler instance is made in.
    pub closed spec fn context_addr(self) -> usize {
        self.context
    }

    /// How the compiler instance will stand to its context.
    pub closed spec fn rooting(self) -> Rooting {
        self.rooting
    }

    /// The module that the compiler instance is made from.
    pub closed spec fn module(self) -> Seq<u32> {
        self.spirv@
    }

    /// How far the making has come.
    pub closed spec fn stage(self) -> BuildStage {
        self.stage
    }

    /// The foreign call that `request` names.
    pub open spec fn requested(self, call: ForeignCall<'m>) -> bool {
        match self.stage() {
            BuildStage::Parse => call matches ForeignCall::ParseSpirv { context, words }
                && context == self.context_addr() && words@ == self.module(),
            BuildStage::Create { ir } => call == (ForeignCall::CreateCompiler {
                context: self.context_addr(),
                backend: T::spec_backend(),
                ir,
                capture: CaptureMode::TakeOwnership,
            }),
        }
    }

    /// What `advance` returns when the requested call ended with `status`
    /// and wrote the address `pointer`.
    pub open spec fn advanced(
        self,
        status: ForeignStatus,
        pointer: usize,
        step: BuildStep<'m, 'a, T>,
    ) -> bool {
        match status.translated(self.context_addr()) {
            Err(e) => step matches BuildStep::Failed { error, action } && error@ == e && action
                == action_on_failure(self.rooting()),
            Ok(_) => match self.stage() {
                BuildStage::Parse => step matches BuildStep::Call(next) && next.context_addr()
                    == self.context_addr() && next.rooting() == self.rooting() && next.module()
                    == self.module() && next.stage() == (BuildStage::Create { ir: pointer }),
                BuildStage::Create { ir } => if pointer == 0 {
                    step matches BuildStep::Failed { error, action } && error@
                        == ErrorView::OutOfMemory(out_of_memory_text()) && action
                        == action_on_failure(self.rooting())
                } else {
                    match self.rooting() {
                        Rooting::Borrowed => step matches BuildStep::Done(compiler)
                            && self.made(pointer, compiler),
                        Rooting::Shared => step matches BuildStep::Share(unshared)
                            && unshared.addr() == pointer && unshared.context_addr()
                            == self.context_addr(),
                        Rooting::Taken => step matches BuildStep::Promoted(compiler, ledger)
                            && self.made(pointer, compiler) && ledger@ == (LedgerView {
                            context: self.context_addr(),
                            holders: 1,
                            destroy_calls: 0,
                        }),
                    }
                },
            },
        }
    }

    /// `compiler` is the fresh instance at address `pointer` that this
    /// builder makes.
    pub open spec fn made(self, pointer: usize, compiler: Compiler<'a, T>) -> bool {
        &&& compiler.addr() == pointer
        &&& compiler.root() == root_for(self.rooting(), self.context_addr())
        &&& compiler.issued() == 0
        &&& compiler.outstanding() == Set::<u64>::empty()
    }

    /// The address of the context that the compiler instance is made in.
    pub fn context(&self) -> (p: usize)
        ensures
            p == self.context_addr(),
    {
        self.context
    }

    /// Gives the making up before its end, and says what becomes of the
    /// context: one that the builder had taken over is destroyed, any other
    /// stays.
    pub fn abandon(self) -> (action: RootAction)
        ensures
            action == action_on_failure(self.rooting()),
    {
        match self.rooting {
            Rooting::Taken => RootAction::Destroy,
            _ => RootAction::Keep,
        }
    }

    /// The foreign call to make now.
    pub fn request(&self) -> (call: ForeignCall<'m>)
        ensures
            self.requested(call),
    {
        match self.stage {
            BuildStage::Parse => ForeignCall::ParseSpirv {
                context: self.context,
                words: self.spirv.words(),
            },
            BuildStage::Create { ir } => ForeignCall::CreateCompiler {
                context: self.context,
                backend: T::backend(),
                ir,
                capture: CaptureMode::TakeOwnership,
            },
        }
    }

    /// Takes the outcome of the requested call: its status, and the address
    /// that it wrote (of the parsed module, or of the compiler).
    pub fn advance(self, status: ForeignStatus, pointer: usize) -> (step: BuildStep<'m, 'a, T>)
        ensures
            self.advanced(status, pointer, step),
    {
        proof {
            use_type_invariant(&self);
        }
        let action = match self.rooting {
            Rooting::Taken => RootAction::Destroy,
            _ => RootAction::Keep,
        };
        match status.ok(self.context) {
            Err(error) => BuildStep::Failed { error, action },
            Ok(_) => match self.stage {
                BuildStage::Parse => BuildStep::Call(
                    CompilerBuilder {
                        context: self.context,
                        rooting: self.rooting,
                        taken: self.taken,
                        spirv: self.spirv,
                        stage: BuildStage::Create { ir: pointer },
                        _pd: PhantomData,
                    },
                ),
                BuildStage::Create { ir: _ } => {
                    if pointer == 0 {
                        BuildStep::Failed { error: out_of_memory(), action }
                    } else {
                        match self.taken {
                            Some(context) => BuildStep::Promoted(
                                Compiler::new_from_raw(
                                    pointer,
                                    ContextRoot::RefCounted(self.context),
                                ),
                                RootLedger::new(context),
                            ),
                            None => match self.rooting {
                                Rooting::Borrowed => BuildStep::Done(
                                    Compiler::new_from_raw(
                                        pointer,
                                        ContextRoot::Borrowed(self.context),
                                    ),
                                ),
                                _ => BuildStep::Share(
                                    Unshared { ptr: pointer, context: self.context, _pd: PhantomData },
                                ),
                            },
                        }
                    }
                },
            },
        }
    }
}

impl SpirvCrossContext {
    /// Starts a compiler instance that borrows this context. The context
    /// outlives the instance.
    pub fn create_compiler<'m, 'a, T: Target>(&'a self, spirv: Module<'m>) -> (b: CompilerBuilder<
        'm,
        'a,
        T,
    >)
        ensures
            b.context_addr() == self.addr(),
            b.rooting() == Rooting::Borrowed,
            b.module() == spirv@,
            b.stage() == BuildStage::Parse,
    {
        CompilerBuilder {
            context: self.ptr(),
            rooting: Rooting::Borrowed,
            taken: None,
            spirv,
            stage: BuildStage::Parse,
            _pd: PhantomData,
        }
    }

    /// Starts a compiler instance that will hold a share of the context of
    /// `shared`, which is under shared ownership. The share is taken when
    /// the instance exists, by `Unshared::share`, and not before.
    ///
    /// Nothing is started for a context that exists no more.
    pub fn create_compiler_refcounted<'m, T: Target>(shared: &RootLedger, spirv: Module<'m>) -> (b:
        Option<CompilerBuilder<'m, 'static, T>>)
        ensures
            b is Some == (shared@.holders > 0),
            b is Some ==> {
                &&& b->Some_0.context_addr() == shared@.context
                &&& b->Some_0.rooting() == Rooting::Shared
                &&& b->Some_0.module() == spirv@
                &&& b->Some_0.stage() == BuildStage::Parse
            },
    {
        if !shared.is_alive() {
            return None;
        }
        Some(
            CompilerBuilder {
                context: shared.context(),
                rooting: Rooting::Shared,
                taken: None,
                spirv,
                stage: BuildStage::Parse,
                _pd: PhantomData,
            },
        )
    }

    /// Starts a compiler instance that takes this context over. When the
    /// instance exists, the context is under shared ownership with the
    /// instance as its only holder, and is destroyed when the instance,
    /// and whoever shares the context by then, is gone. If the making fails
    /// the context is destroyed.
    pub fn into_compiler<'m, T: Target>(self, spirv: Module<'m>) -> (b: CompilerBuilder<
        'm,
        'static,
        T,
    >)
        ensures
            b.context_addr() == self.addr(),
            b.rooting() == Rooting::Taken,
            b.module() == spirv@,
            b.stage() == BuildStage::Parse,
    {
        let context = self.ptr();
        CompilerBuilder {
            context,
            rooting: Rooting::Taken,
            taken: Some(self),
            spirv,
            stage: BuildStage::Parse,
            _pd: PhantomData,
        }
    }
}

} // verus!
