//! Execution modes and their arguments.
use vstd::prelude::*;
use crate::compiler::{invalid_handle_text, Compiler};
use crate::error::{ErrorView, ForeignStatus, ResultCode, SpirvCrossError};
use crate::foreign::{ExecutionMode, ForeignCall};
use crate::handle::{ConstantId, Handle, Id};

verus! {

/// The number of the execution mode `Invocations`.
pub const INVOCATIONS: u32 = 0;

/// The number of the execution mode `LocalSize`.
pub const LOCAL_SIZE: u32 = 17;

/// The number of the execution mode `OutputVertices`.
pub const OUTPUT_VERTICES: u32 = 26;

/// The number of the execution mode `LocalSizeId`.
pub const LOCAL_SIZE_ID: u32 = 38;

/// The number of the execution mode `OutputPrimitivesEXT`.
pub const OUTPUT_PRIMITIVES_EXT: u32 = 5270;

/// The arguments of an execution mode.
#[allow(inconsistent_fields)]
#[derive(Clone, Copy, Debug, PartialEq, Eq)]
pub enum ExecutionModeArguments {
    /// The mode takes no argument.
    NoArguments,
    /// The mode takes one number.
    Unit(u32),
    /// The local size, as numbers.
    LocalSize { x: u32, y: u32, z: u32 },
    /// The local size, as constants.
    LocalSizeId { x: Handle<ConstantId>, y: Handle<ConstantId>, z: Handle<ConstantId> },
}

/// What has to be read from the foreign library first to tell the
/// arguments of an execution mode.
#[derive(Clone, Copy, Debug, PartialEq, Eq, Structural)]
pub struct ModeReads {
    /// How many arguments of the mode to read, from index 0 on.
    pub arguments: usize,
    /// Whether to read the list of the modes that are set. Once it is
    /// read, `argument_is_read` says whether the argument at index 0 has to
    /// be read as well.
    pub modes: bool,
}

/// Whether the mode takes the local size: three arguments that are all
/// zero exactly when the mode is not set.
pub open spec fn takes_local_size(mode: ExecutionMode) -> bool {
    mode.0 == LOCAL_SIZE || mode.0 == LOCAL_SIZE_ID
}

/// Whether the mode takes one number.
pub open spec fn takes_unit(mode: ExecutionMode) -> bool {
    mode.0 == INVOCATIONS || mode.0 == OUTPUT_VERTICES || mode.0 == OUTPUT_PRIMITIVES_EXT
}

/// What `execution_mode_reads` returns: the three arguments for the local
/// size, the list of the modes that are set for every other mode.
pub open spec fn mode_reads(mode: ExecutionMode) -> ModeReads {
    if takes_local_size(mode) {
        ModeReads { arguments: 3, modes: false }
    } else {
        ModeReads { arguments: 0, modes: true }
    }
}

/// What `argument_is_read` returns: the argument of a mode that takes one
/// number is read once the list of the modes that are set was read with
/// success and holds the mode.
pub open spec fn reads_argument(
    mode: ExecutionMode,
    status: ForeignStatus,
    modes: Seq<ExecutionMode>,
) -> bool {
    takes_unit(mode) && status.code == ResultCode::Success && modes.contains(mode)
}

/// Whether three arguments stand for a local size that is set: whether
/// none of them is zero.
pub open spec fn local_size_is_set(x: u32, y: u32, z: u32) -> bool {
    x != 0 && y != 0 && z != 0
}

/// What `execution_mode_arguments` returns, for the instance at address
/// `tag` in the context at address `context`.
pub open spec fn mode_arguments(
    tag: usize,
    context: usize,
    mode: ExecutionMode,
    arguments: Seq<u32>,
    status: ForeignStatus,
    modes: Seq<ExecutionMode>,
) -> Result<Option<ExecutionModeArguments>, ErrorView> {
    let x = arguments[0];
    let y = arguments[1];
    let z = arguments[2];
    if takes_local_size(mode) {
        if !local_size_is_set(x, y, z) {
            Ok(None)
        } else if mode.0 == LOCAL_SIZE {
            Ok(Some(ExecutionModeArguments::LocalSize { x, y, z }))
        } else {
            Ok(
                Some(
                    ExecutionModeArguments::LocalSizeId {
                        x: Handle::minted(ConstantId(x), tag),
                        y: Handle::minted(ConstantId(y), tag),
                        z: Handle::minted(ConstantId(z), tag),
                    },
                ),
            )
        }
    } else {
        match status.translated(context) {
            Err(e) => Err(e),
            Ok(_) => if !modes.contains(mode) {
                Ok(None)
            } else if takes_unit(mode) {
                Ok(Some(ExecutionModeArguments::Unit(x)))
            } else {
                Ok(Some(ExecutionModeArguments::NoArguments))
            },
        }
    }
}

/// A local size is set exactly when the product of its three arguments,
/// taken without overflow, is not zero.
pub proof fn local_size_is_set_by_product(x: u32, y: u32, z: u32)
    ensures
        local_size_is_set(x, y, z) <==> x * y * z != 0,
{
    assert((x * y * z != 0) <==> (x != 0 && y != 0 && z != 0)) by (nonlinear_arith);
}

/// Whether `mode` is among `modes`.
fn contains_mode(modes: &[ExecutionMode], mode: ExecutionMode) -> (r: bool)
    ensures
        r == modes@.contains(mode),
{
    let mut i: usize = 0;
    while i < modes.len()
        invariant
            0 <= i <= modes@.len(),
            forall|j: int| 0 <= j < i ==> modes@[j] != mode,
        decreases modes@.len() - i,
    {
        if modes[i].0 == mode.0 {
            return true;
        }
        i = i + 1;
    }
    false
}

/// Which foreign reads `execution_mode_arguments` needs first for `mode`.
/// What is not read may be handed to it as zeros, as success and as an
/// empty list.
pub fn execution_mode_reads(mode: ExecutionMode) -> (reads: ModeReads)
    ensures
        reads == mode_reads(mode),
{
    if mode.0 == LOCAL_SIZE || mode.0 == LOCAL_SIZE_ID {
        ModeReads { arguments: 3, modes: false }
    } else {
        ModeReads { arguments: 0, modes: true }
    }
}

/// Whether, after the list of the modes that are set was read with the
/// outcome `status` and `modes`, the argument of `mode` at index 0 has to be
/// read as well. It is read only for a mode that takes one number, and only
/// when the list was read with success and holds the mode.
pub fn argument_is_read(mode: ExecutionMode, status: &ForeignStatus, modes: &[ExecutionMode]) -> (read:
    bool)
    ensures
        read == (takes_unit(mode) && status.code == ResultCode::Success && modes@.contains(
            mode,
        )),
        read == reads_argument(mode, *status, modes@),
{
    if !(mode.0 == INVOCATIONS || mode.0 == OUTPUT_VERTICES || mode.0 == OUTPUT_PRIMITIVES_EXT) {
        return false;
    }
    if status.code != ResultCode::Success {
        return false;
    }
    contains_mode(modes, mode)
}

impl ExecutionModeArguments {
    /// The three numbers that the foreign library takes for the arguments,
    /// with zero for each that the mode does not have.
    pub open spec fn expanded(self) -> Seq<u32> {
        match self {
            ExecutionModeArguments::NoArguments => seq![0u32, 0u32, 0u32],
            ExecutionModeArguments::Unit(a) => seq![a, 0u32, 0u32],
            ExecutionModeArguments::LocalSize { x, y, z } => seq![x, y, z],
            ExecutionModeArguments::LocalSizeId { x, y, z } => seq![
                x.inner().0,
                y.inner().0,
                z.inner().0,
            ],
        }
    }

    /// The three numbers that the foreign library takes for the arguments.
    fn expand(self) -> (r: [u32; 3])
        ensures
            r@ == self.expanded(),
    {
        let r = match self {
            ExecutionModeArguments::NoArguments => [0, 0, 0],
            ExecutionModeArguments::Unit(a) => [a, 0, 0],
            ExecutionModeArguments::LocalSize { x, y, z } => [x, y, z],
            ExecutionModeArguments::LocalSizeId { x, y, z } => [x.id(), y.id(), z.id()],
        };
        assert(r@ =~= self.expanded());
        r
    }
}

impl<'a, T> Compiler<'a, T> {
    /// Whether every handle among the arguments is one of this instance.
    pub open spec fn accepts_arguments(self, arguments: ExecutionModeArguments) -> bool {
        match arguments {
            ExecutionModeArguments::LocalSizeId { x, y, z } => self.accepts(x) && self.accepts(y)
                && self.accepts(z),
            _ => true,
        }
    }

    /// What `set_execution_mode` returns.
    pub open spec fn mode_setting(
        self,
        mode: ExecutionMode,
        arguments: Option<ExecutionModeArguments>,
    ) -> Result<ForeignCall<'static>, ErrorView> {
        match arguments {
            None => Ok(ForeignCall::UnsetExecutionMode { compiler: self.addr(), mode }),
            Some(a) => if self.accepts_arguments(a) {
                Ok(
                    ForeignCall::SetExecutionModeWithArguments {
                        compiler: self.addr(),
                        mode,
                        x: a.expanded()[0],
                        y: a.expanded()[1],
                        z: a.expanded()[2],
                    },
                )
            } else {
                Err(ErrorView::InvalidOperation(invalid_handle_text()))
            },
        }
    }

    /// Names the foreign call that sets or unsets an execution mode.
    ///
    /// Without arguments the mode is unset. To set a mode that takes no
    /// argument, pass `Some(ExecutionModeArguments::NoArguments)`. Constants among
    /// the arguments are named by handles, which have to be handles of this
    /// instance.
    pub fn set_execution_mode(
        &mut self,
        mode: ExecutionMode,
        arguments: Option<ExecutionModeArguments>,
    ) -> (r: Result<ForeignCall<'static>, SpirvCrossError>)
        ensures
            *final(self) == *old(self),
            match old(self).mode_setting(mode, arguments) {
                Ok(call) => r == Ok::<ForeignCall<'static>, SpirvCrossError>(call),
                Err(e) => r is Err && r->Err_0@ == e,
            },
    {
        let arguments = match arguments {
            None => {
                return Ok(ForeignCall::UnsetExecutionMode { compiler: self.ptr(), mode });
            },
            Some(arguments) => arguments,
        };
        if let ExecutionModeArguments::LocalSizeId { x, y, z } = arguments {
            match self.yield_id(x) {
                Err(e) => {
                    return Err(e);
                },
                Ok(_) => {},
            }
            match self.yield_id(y) {
                Err(e) => {
                    return Err(e);
                },
                Ok(_) => {},
            }
            match self.yield_id(z) {
                Err(e) => {
                    return Err(e);
                },
                Ok(_) => {},
            }
        }
        let xyz = arguments.expand();
        Ok(
            ForeignCall::SetExecutionModeWithArguments {
                compiler: self.ptr(),
                mode,
                x: xyz[0],
                y: xyz[1],
                z: xyz[2],
            },
        )
    }

    /// Takes the outcome of the foreign call that lists the execution modes
    /// that are set: its status, and the list.
    pub fn execution_modes<'s>(&self, status: ForeignStatus, modes: &'s [ExecutionMode]) -> (r:
        Result<&'s [ExecutionMode], SpirvCrossError>)
        ensures
            match status.translated(self.root().context()) {
                Err(e) => r is Err && r->Err_0@ == e,
                Ok(_) => r is Ok && r->Ok_0@ == modes@,
            },
    {
        match self.finish(status) {
            Err(e) => Err(e),
            Ok(_) => Ok(modes),
        }
    }

    /// Tells the arguments of an execution mode from what the foreign
    /// library answered: `arguments` are the arguments of the mode at the
    /// indices 0, 1 and 2, `status` and `modes` the outcome of listing the
    /// modes that are set. Of these only what `execution_mode_reads` and
    /// `argument_is_read` name for the mode is looked at.
    ///
    /// A mode that is not set has no arguments: the answer is `None`, not
    /// arguments of zero. The local size is not set when one of its three
    /// arguments is zero. Any other mode is set when it is in the list. The local size as constants comes as handles of this
    /// instance.
    pub fn execution_mode_arguments(
        &self,
        mode: ExecutionMode,
        arguments: [u32; 3],
        status: ForeignStatus,
        modes: &[ExecutionMode],
    ) -> (r: Result<Option<ExecutionModeArguments>, SpirvCrossError>)
        ensures
            match mode_arguments(
                self.addr(),
                self.root().context(),
                mode,
                arguments@,
                status,
                modes@,
            ) {
                Ok(a) => r == Ok::<Option<ExecutionModeArguments>, SpirvCrossError>(a),
                Err(e) => r is Err && r->Err_0@ == e,
            },
    {
        let x = arguments[0];
        let y = arguments[1];
        let z = arguments[2];
        if mode.0 == LOCAL_SIZE {
            if x == 0 || y == 0 || z == 0 {
                Ok(None)
            } else {
                Ok(Some(ExecutionModeArguments::LocalSize { x, y, z }))
            }
        } else if mode.0 == LOCAL_SIZE_ID {
            if x == 0 || y == 0 || z == 0 {
                Ok(None)
            } else {
                Ok(
                    Some(
                        ExecutionModeArguments::LocalSizeId {
                            x: self.create_handle(ConstantId(x)),
                            y: self.create_handle(ConstantId(y)),
                            z: self.create_handle(ConstantId(z)),
                        },
                    ),
                )
            }
        } else if mode.0 == INVOCATIONS || mode.0 == OUTPUT_VERTICES || mode.0
            == OUTPUT_PRIMITIVES_EXT {
            match self.execution_modes(status, modes) {
                Err(e) => Err(e),
                Ok(set) => {
                    if !contains_mode(set, mode) {
                        Ok(None)
                    } else {
                        Ok(Some(ExecutionModeArguments::Unit(x)))
                    }
                },
            }
        } else {
            match self.execution_modes(status, modes) {
                Err(e) => Err(e),
                Ok(set) => {
                    if !contains_mode(set, mode) {
                        Ok(None)
                    } else {
                        Ok(Some(ExecutionModeArguments::NoArguments))
                    }
                },
            }
        }
    }
}

/// The arguments of a mode are told from what `mode_reads` and
/// `reads_argument` name for the mode, and from nothing else: whatever
/// stands in the places that are not read, the answer is the same.
pub proof fn answer_rests_on_what_is_read(
    tag: usize,
    context: usize,
    mode: ExecutionMode,
    arguments: Seq<u32>,
    status: ForeignStatus,
    modes: Seq<ExecutionMode>,
    other_arguments: Seq<u32>,
    other_status: ForeignStatus,
    other_modes: Seq<ExecutionMode>,
)
    requires
        forall|i: int| 0 <= i < mode_reads(mode).arguments ==> arguments[i] == other_arguments[i],
        mode_reads(mode).modes ==> status == other_status && modes == other_modes,
        reads_argument(mode, status, modes) ==> arguments[0] == other_arguments[0],
    ensures
        mode_arguments(tag, context, mode, arguments, status, modes) == mode_arguments(
            tag,
            context,
            mode,
            other_arguments,
            other_status,
            other_modes,
        ),
{
    if takes_local_size(mode) {
        assert(arguments[0] == other_arguments[0]);
        assert(arguments[1] == other_arguments[1]);
        assert(arguments[2] == other_arguments[2]);
    }
}

/// A local size without a zero in it, set and then read back from a foreign
/// library that answers with what was set, comes back as it went in.
pub proof fn local_size_comes_back<'a, T>(
    compiler: Compiler<'a, T>,
    x: u32,
    y: u32,
    z: u32,
    status: ForeignStatus,
    modes: Seq<ExecutionMode>,
)
    requires
        x != 0 && y != 0 && z != 0,
    ensures
        compiler.mode_setting(
            ExecutionMode(LOCAL_SIZE),
            Some(ExecutionModeArguments::LocalSize { x, y, z }),
        ) == Ok::<ForeignCall<'static>, ErrorView>(
            ForeignCall::SetExecutionModeWithArguments {
                compiler: compiler.addr(),
                mode: ExecutionMode(LOCAL_SIZE),
                x,
                y,
                z,
            },
        ),
        mode_arguments(
            compiler.addr(),
            compiler.root().context(),
            ExecutionMode(LOCAL_SIZE),
            seq![x, y, z],
            status,
            modes,
        ) == Ok::<Option<ExecutionModeArguments>, ErrorView>(
            Some(ExecutionModeArguments::LocalSize { x, y, z }),
        ),
{
}

/// A mode whose arguments are all zero and that is not in the list of the
/// modes that are set has no arguments: it is never told as arguments of
/// zero.
pub proof fn unset_mode_has_no_arguments(
    tag: usize,
    context: usize,
    mode: ExecutionMode,
    status: ForeignStatus,
    modes: Seq<ExecutionMode>,
)
    requires
        status.translated(context) is Ok,
        !modes.contains(mode),
    ensures
        mode_arguments(tag, context, mode, seq![0u32, 0u32, 0u32], status, modes) == Ok::<
            Option<ExecutionModeArguments>,
            ErrorView,
        >(None),
{
}

} // verus!
