//! Who owns the foreign context, and when it is destroyed.
use vstd::prelude::*;
use crate::error::{out_of_memory, ErrorView, ResultCode, SpirvCrossError, out_of_memory_text};

verus! {

/// The foreign context: the owner of every allocation that the foreign
/// library makes for the objects derived from it. This value stands for the
/// one binding that created the context; it cannot be copied.
#[derive(Debug, PartialEq, Eq)]
pub struct SpirvCrossContext {
    ptr: usize,
}

/// How an object that lives in a context keeps that context alive.
#[derive(Clone, Copy, Debug, PartialEq, Eq, Hash, Structural)]
pub enum ContextRoot {
    /// The object borrows the context. The caller sees to it that the
    /// context outlives the object.
    Borrowed(usize),
    /// The object is one of the holders of a context under shared
    /// ownership. The context is destroyed when its last holder is dropped.
    RefCounted(usize),
}

impl ContextRoot {
    /// The address of the context.
    pub open spec fn context(self) -> usize {
        match self {
            ContextRoot::Borrowed(p) => p,
            ContextRoot::RefCounted(p) => p,
        }
    }

    /// The address of the context.
    pub fn ptr(&self) -> (p: usize)
        ensures
            p == self.context(),
    {
        match self {
            ContextRoot::Borrowed(p) => *p,
            ContextRoot::RefCounted(p) => *p,
        }
    }

    /// Whether the object holds a share of the context.
    pub fn is_refcounted(&self) -> (r: bool)
        ensures
            r == (*self is RefCounted),
    {
        match self {
            ContextRoot::Borrowed(_) => false,
            ContextRoot::RefCounted(_) => true,
        }
    }
}

impl SpirvCrossContext {
    #[verifier::type_invariant]
    spec fn nonnull(self) -> bool {
        self.ptr != 0
    }

    /// The address of the foreign context.
    pub closed spec fn addr(self) -> usize {
        self.ptr
    }

    /// Takes what the foreign library answered when asked for a fresh
    /// context: its status and the address it wrote. Anything but success
    /// with a non-null address means that no context exists.
    pub fn new(result: ResultCode, context: usize) -> (r: Result<SpirvCrossContext, SpirvCrossError>)
        ensures
            (result == ResultCode::Success && context != 0) ==> r is Ok && r->Ok_0.addr()
                == context,
            !(result == ResultCode::Success && context != 0) ==> r is Err && r->Err_0@
                == ErrorView::OutOfMemory(out_of_memory_text()),
    {
        if result != ResultCode::Success {
            return Err(out_of_memory());
        }
        if context == 0 {
            return Err(out_of_memory());
        }
        Ok(SpirvCrossContext { ptr: context })
    }

    /// The address of the foreign context, which is never null.
    pub fn ptr(&self) -> (p: usize)
        ensures
            p == self.addr(),
            p != 0,
    {
        proof {
            use_type_invariant(self);
        }
        self.ptr
    }

    /// The root of an object that borrows this context.
    pub fn borrowed_root(&self) -> (root: ContextRoot)
        ensures
            root == ContextRoot::Borrowed(self.addr()),
    {
        ContextRoot::Borrowed(self.ptr)
    }
}

/// Something that happens to a context under shared ownership.
#[derive(Clone, Copy, Debug, PartialEq, Eq, Structural)]
pub enum RootEvent {
    /// Another holder appears.
    Share,
    /// A holder is dropped.
    Release,
}

/// What the caller does with the foreign context after an event.
#[derive(Clone, Copy, Debug, PartialEq, Eq, Structural)]
pub enum RootAction {
    /// Nothing: the context stays as it is.
    Keep,
    /// Destroy the foreign context now.
    Destroy,
}

/// The book of a context under shared ownership: how many holders it has,
/// and how often its destruction was ordered.
///
/// A context comes under shared ownership by giving itself up to its book,
/// so a context has one book at most. The first holder is whoever gave the
/// context up. A holder is added for each compiler instance with a
/// `RefCounted` root. The context is destroyed when the last holder goes,
/// and never again.
#[derive(Debug, PartialEq, Eq)]
pub struct RootLedger {
    context: SpirvCrossContext,
    holders: u64,
    destroy_calls: u64,
}

/// The state of a `RootLedger`.
pub struct LedgerView {
    pub context: usize,
    pub holders: nat,
    pub destroy_calls: nat,
}

impl LedgerView {
    /// The context is destroyed exactly when no holder is left, and then
    /// once.
    pub open spec fn wf(self) -> bool {
        &&& self.context != 0
        &&& self.holders <= u64::MAX
        &&& self.destroy_calls == if self.holders == 0 {
            1nat
        } else {
            0nat
        }
    }

    /// Whether `event` changes anything: a context without holders is gone
    /// for good, and the number of holders has a limit.
    pub open spec fn admits(self, event: RootEvent) -> bool {
        match event {
            RootEvent::Share => 0 < self.holders < u64::MAX,
            RootEvent::Release => 0 < self.holders,
        }
    }

    /// The state after `event`.
    pub open spec fn step(self, event: RootEvent) -> LedgerView {
        if !self.admits(event) {
            self
        } else {
            match event {
                RootEvent::Share => LedgerView { holders: self.holders + 1, ..self },
                RootEvent::Release => LedgerView {
                    holders: (self.holders - 1) as nat,
                    destroy_calls: if self.holders == 1 {
                        self.destroy_calls + 1
                    } else {
                        self.destroy_calls
                    },
                    ..self
                },
            }
        }
    }

    /// What `event` orders: the destruction of the context when the last
    /// holder is released, and nothing otherwise.
    pub open spec fn action(self, event: RootEvent) -> RootAction {
        if event == RootEvent::Release && self.holders == 1 {
            RootAction::Destroy
        } else {
            RootAction::Keep
        }
    }

    /// The state after a sequence of events.
    pub open spec fn run(self, events: Seq<RootEvent>) -> LedgerView
        decreases events.len(),
    {
        if events.len() == 0 {
            self
        } else {
            self.step(events[0]).run(events.drop_first())
        }
    }

    /// How often a sequence of events orders the destruction of the context.
    pub open spec fn destructions(self, events: Seq<RootEvent>) -> nat
        decreases events.len(),
    {
        if events.len() == 0 {
            0
        } else {
            (if self.action(events[0]) == RootAction::Destroy {
                1nat
            } else {
                0nat
            }) + self.step(events[0]).destructions(events.drop_first())
        }
    }
}

impl View for RootLedger {
    type V = LedgerView;

    closed spec fn view(&self) -> LedgerView {
        LedgerView {
            context: self.context.addr(),
            holders: self.holders as nat,
            destroy_calls: self.destroy_calls as nat,
        }
    }
}

impl RootLedger {
    /// Puts a context under shared ownership. The binding gives the context
    /// up and becomes its only holder.
    pub fn new(context: SpirvCrossContext) -> (ledger: RootLedger)
        ensures
            ledger@.wf(),
            ledger@ == (LedgerView { context: context.addr(), holders: 1, destroy_calls: 0 }),
    {
        let _ = context.ptr();
        RootLedger { context, holders: 1, destroy_calls: 0 }
    }

    /// The address of the context.
    pub fn context(&self) -> (p: usize)
        ensures
            p == self@.context,
    {
        self.context.ptr()
    }

    /// The context, for a compiler instance that borrows it, as long as
    /// the context exists.
    pub fn get(&self) -> (context: Option<&SpirvCrossContext>)
        ensures
            context is Some == (self@.holders > 0),
            context is Some ==> context->Some_0.addr() == self@.context,
    {
        if self.holders > 0 {
            Some(&self.context)
        } else {
            None
        }
    }

    /// The number of holders.
    pub fn holders(&self) -> (n: u64)
        ensures
            n == self@.holders,
    {
        self.holders
    }

    /// How often the destruction of the context was ordered.
    pub fn destroy_calls(&self) -> (n: u64)
        ensures
            n == self@.destroy_calls,
    {
        self.destroy_calls
    }

    /// Whether the context still exists.
    pub fn is_alive(&self) -> (r: bool)
        ensures
            r == (self@.holders > 0),
    {
        self.holders > 0
    }

    /// Applies one event and says what to do with the foreign context.
    pub fn apply(&mut self, event: RootEvent) -> (action: RootAction)
        requires
            old(self)@.wf(),
        ensures
            final(self)@.wf(),
            final(self)@ == old(self)@.step(event),
            action == old(self)@.action(event),
    {
        match event {
            RootEvent::Share => {
                if 0 < self.holders && self.holders < u64::MAX {
                    self.holders = self.holders + 1;
                }
                RootAction::Keep
            },
            RootEvent::Release => {
                if self.holders == 0 {
                    RootAction::Keep
                } else if self.holders == 1 {
                    self.holders = 0;
                    self.destroy_calls = self.destroy_calls + 1;
                    RootAction::Destroy
                } else {
                    self.holders = self.holders - 1;
                    RootAction::Keep
                }
            },
        }
    }

    /// Adds a holder and hands out its root. There is none to hand out when
    /// the context is already destroyed, or when the number of holders is at
    /// its limit; the book is then left as it was.
    pub fn share(&mut self) -> (root: Option<ContextRoot>)
        requires
            old(self)@.wf(),
        ensures
            final(self)@.wf(),
            final(self)@ == old(self)@.step(RootEvent::Share),
            root == if old(self)@.admits(RootEvent::Share) {
                Some(ContextRoot::RefCounted(old(self)@.context))
            } else {
                None
            },
    {
        if 0 < self.holders && self.holders < u64::MAX {
            self.holders = self.holders + 1;
            Some(ContextRoot::RefCounted(self.context.ptr()))
        } else {
            None
        }
    }

    /// Drops the holder with the given root. A borrowed root holds nothing,
    /// and a root of another context is not in this book: for those nothing
    /// changes. Otherwise one holder goes, and the destruction of the
    /// context is ordered if it was the last.
    pub fn release(&mut self, root: ContextRoot) -> (action: RootAction)
        requires
            old(self)@.wf(),
        ensures
            final(self)@.wf(),
            root == ContextRoot::RefCounted(old(self)@.context) ==> {
                &&& final(self)@ == old(self)@.step(RootEvent::Release)
                &&& action == old(self)@.action(RootEvent::Release)
            },
            root != ContextRoot::RefCounted(old(self)@.context) ==> {
                &&& final(self)@ == old(self)@
                &&& action == RootAction::Keep
            },
    {
        match root {
            ContextRoot::RefCounted(p) => {
                if p == self.context.ptr() {
                    self.apply(RootEvent::Release)
                } else {
                    RootAction::Keep
                }
            },
            ContextRoot::Borrowed(_) => RootAction::Keep,
        }
    }
}

/// A step keeps the book in order.
pub proof fn step_keeps_order(ledger: LedgerView, event: RootEvent)
    requires
        ledger.wf(),
    ensures
        ledger.step(event).wf(),
        ledger.step(event).context == ledger.context,
        ledger.action(event) == RootAction::Destroy <==> ledger.holders > 0 && ledger.step(
            event,
        ).holders == 0,
{
}

/// Whatever happens to a context under shared ownership, in whatever order:
/// as long as a holder is left its destruction has not been ordered, and
/// once the last holder is gone it has been ordered exactly once. So a
/// context whose first binding is dropped while compiler instances still
/// hold it stays, and the drop of the last of them destroys it, once.
pub proof fn destroyed_once_after_last_holder(ledger: LedgerView, events: Seq<RootEvent>)
    requires
        ledger.wf(),
    ensures
        ledger.run(events).wf(),
        ledger.run(events).context == ledger.context,
        ledger.run(events).holders > 0 ==> ledger.run(events).destroy_calls == 0
            && ledger.destructions(events) == 0,
        ledger.run(events).holders == 0 ==> ledger.run(events).destroy_calls == 1,
        ledger.destroy_calls + ledger.destructions(events) == ledger.run(events).destroy_calls,
        ledger.destructions(events) <= 1,
    decreases events.len(),
{
    if events.len() > 0 {
        step_keeps_order(ledger, events[0]);
        destroyed_once_after_last_holder(ledger.step(events[0]), events.drop_first());
    }
}

/// A context that has lost its last holder is gone for good: no later event
/// brings it back or destroys it again.
pub proof fn destroyed_stays_destroyed(ledger: LedgerView, events: Seq<RootEvent>)
    requires
        ledger.wf(),
        ledger.holders == 0,
    ensures
        ledger.run(events) == ledger,
        ledger.destructions(events) == 0,
    decreases events.len(),
{
    if events.len() > 0 {
        destroyed_stays_destroyed(ledger.step(events[0]), events.drop_first());
    }
}

} // verus!
