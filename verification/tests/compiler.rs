use spirv_cross2::builder::{BuildStep, CompilerBuilder, Module, Unshared};
use spirv_cross2::compiler::Compiler;
use spirv_cross2::context::{ContextRoot, RootAction, RootEvent, RootLedger, SpirvCrossContext};
use spirv_cross2::error::{ForeignFailure, ForeignStatus, NulError, ResultCode, SpirvCrossError};
use spirv_cross2::foreign::{BuiltIn, CaptureMode, CompilerBackend, ForeignCall};
use spirv_cross2::handle::{ConstantId, Handle, TypeId, VariableId};
use spirv_cross2::string::MaybeOwnedCString;
use spirv_cross2::targets::{Cpp, Glsl, Hlsl, Json, Msl, Reflect, Target};
use spirv_cross2::ContextRooted;

const WORDS: [u32; 5] = [0x0723_0203, 0x0001_0000, 0, 1, 0];

fn success() -> ForeignStatus {
    ForeignStatus::new(ResultCode::Success)
}

fn finish<'a, T: Target>(builder: CompilerBuilder<'_, 'a, T>, address: usize) -> Compiler<'a, T> {
    let builder = match builder.advance(success(), 0x2000) {
        BuildStep::Call(next) => next,
        _ => panic!("the module was parsed"),
    };
    match builder.advance(success(), address) {
        BuildStep::Done(compiler) => compiler,
        _ => panic!("the compiler was created"),
    }
}

fn reflect_at(context: &SpirvCrossContext, address: usize) -> Compiler<'_, Reflect> {
    finish(context.create_compiler::<Reflect>(Module::from_words(&WORDS)), address)
}

fn glsl_at(context: &SpirvCrossContext, address: usize) -> Compiler<'_, Glsl> {
    finish(context.create_compiler::<Glsl>(Module::from_words(&WORDS)), address)
}

#[test]
fn create_compiler() {
    let spv = SpirvCrossContext::new(ResultCode::Success, 0x1000).unwrap();
    let words = Module::from_words(&WORDS);
    let builder = spv.create_compiler::<Reflect>(words);
    assert_eq!(builder.request(), ForeignCall::ParseSpirv { context: 0x1000, words: &WORDS });
    let builder = match builder.advance(success(), 0x2000) {
        BuildStep::Call(next) => next,
        _ => panic!("the module was parsed"),
    };
    assert_eq!(
        builder.request(),
        ForeignCall::CreateCompiler {
            context: 0x1000,
            backend: CompilerBackend::Reflect,
            ir: 0x2000,
            capture: CaptureMode::TakeOwnership,
        }
    );
    let compiler: Compiler<'_, Reflect> = match builder.advance(success(), 0x3000) {
        BuildStep::Done(compiler) => compiler,
        _ => panic!("the compiler was created"),
    };
    assert_eq!(compiler.ptr(), 0x3000);
    assert_eq!(compiler.context(), 0x1000);
    assert_eq!(compiler.context_root(), ContextRoot::Borrowed(0x1000));
}

#[test]
fn reflect_interface_vars() {
    let spv = SpirvCrossContext::new(ResultCode::Success, 0x1000).unwrap();
    let compiler = reflect_at(&spv, 0x3000);
    let vars: Vec<Handle<VariableId>> =
        [13u32, 9].iter().map(|id| compiler.create_handle(VariableId(*id))).collect();
    assert_eq!(&[13, 9], &vars.iter().map(|h| h.id()).collect::<Vec<_>>().as_slice());
    for var in vars {
        assert!(compiler.yield_id(var).is_ok());
    }
}

#[test]
fn module_keeps_its_words() {
    let module = Module::from_words(&WORDS);
    assert_eq!(module.words(), &WORDS);
    assert_eq!(Module::from_words(&[]).words().len(), 0);
}

#[test]
fn each_target_asks_for_its_backend() {
    assert_eq!(Reflect::backend(), CompilerBackend::Reflect);
    assert_eq!(Glsl::backend(), CompilerBackend::Glsl);
    assert_eq!(Hlsl::backend(), CompilerBackend::Hlsl);
    assert_eq!(Msl::backend(), CompilerBackend::Msl);
    assert_eq!(Cpp::backend(), CompilerBackend::Cpp);
    assert_eq!(Json::backend(), CompilerBackend::Json);
    let context = SpirvCrossContext::new(ResultCode::Success, 0x1000).unwrap();
    let builder = context.create_compiler::<Msl>(Module::from_words(&WORDS));
    let builder = match builder.advance(success(), 0x2000) {
        BuildStep::Call(next) => next,
        _ => panic!("the module was parsed"),
    };
    assert_eq!(
        builder.request(),
        ForeignCall::CreateCompiler {
            context: 0x1000,
            backend: CompilerBackend::Msl,
            ir: 0x2000,
            capture: CaptureMode::TakeOwnership,
        }
    );
}

#[test]
fn failed_parse_makes_no_compiler() {
    let context = SpirvCrossContext::new(ResultCode::Success, 0x1000).unwrap();
    let builder = context.create_compiler::<Reflect>(Module::from_words(&WORDS));
    let status =
        ForeignStatus { code: ResultCode::InvalidSpirv, message: Some(String::from("bad magic")) };
    match builder.advance(status, 0) {
        BuildStep::Failed { error, action } => {
            assert_eq!(
                error,
                SpirvCrossError::Foreign {
                    failure: ForeignFailure::InvalidSpirv,
                    message: Some(String::from("bad magic")),
                    context: 0x1000,
                }
            );
            assert_eq!(action, RootAction::Keep);
        }
        _ => panic!("the parse failed"),
    }
}

#[test]
fn failed_creation_makes_no_compiler() {
    let context = SpirvCrossContext::new(ResultCode::Success, 0x1000).unwrap();
    let builder = context.create_compiler::<Glsl>(Module::from_words(&WORDS));
    let builder = match builder.advance(success(), 0x2000) {
        BuildStep::Call(next) => next,
        _ => panic!("the module was parsed"),
    };
    match builder.advance(ForeignStatus::new(ResultCode::InvalidArgument), 0x3000) {
        BuildStep::Failed { error, action } => {
            assert_eq!(
                error,
                SpirvCrossError::Foreign {
                    failure: ForeignFailure::InvalidArgument,
                    message: None,
                    context: 0x1000,
                }
            );
            assert_eq!(action, RootAction::Keep);
        }
        _ => panic!("the creation failed"),
    }
}

#[test]
fn null_compiler_is_out_of_memory() {
    let context = SpirvCrossContext::new(ResultCode::Success, 0x1000).unwrap();
    let builder = context.create_compiler::<Glsl>(Module::from_words(&WORDS));
    let builder = match builder.advance(success(), 0x2000) {
        BuildStep::Call(next) => next,
        _ => panic!("the module was parsed"),
    };
    match builder.advance(success(), 0) {
        BuildStep::Failed { error, action } => {
            assert_eq!(error, SpirvCrossError::OutOfMemory(String::from("Out of memory")));
            assert_eq!(action, RootAction::Keep);
        }
        _ => panic!("no compiler was written"),
    }
}

fn unshared<'m>(ledger: &RootLedger, words: &'m [u32], address: usize) -> Unshared<'static, Reflect> {
    let builder =
        SpirvCrossContext::create_compiler_refcounted::<Reflect>(ledger, Module::from_words(words))
            .unwrap();
    let builder = match builder.advance(success(), 0x2000) {
        BuildStep::Call(next) => next,
        _ => panic!("the module was parsed"),
    };
    match builder.advance(success(), address) {
        BuildStep::Share(unshared) => unshared,
        _ => panic!("the compiler was created"),
    }
}

#[test]
fn refcounted_compiler_holds_a_share() {
    let context = SpirvCrossContext::new(ResultCode::Success, 0x1000).unwrap();
    let mut ledger = RootLedger::new(context);
    let made = unshared(&ledger, &WORDS, 0x3000);
    assert_eq!(made.context(), 0x1000);
    assert_eq!(ledger.holders(), 1);
    let compiler = made.share(&mut ledger).unwrap();
    assert_eq!(ledger.holders(), 2);
    assert_eq!(compiler.ptr(), 0x3000);
    assert_eq!(compiler.context_root(), ContextRoot::RefCounted(0x1000));

    assert_eq!(ledger.release(ContextRoot::RefCounted(0x1000)), RootAction::Keep);
    assert_eq!(ledger.destroy_calls(), 0);
    assert_eq!(ledger.release(compiler.context_root()), RootAction::Destroy);
    assert_eq!(ledger.destroy_calls(), 1);
}

#[test]
fn refcounted_compiler_in_the_making_holds_no_share() {
    let context = SpirvCrossContext::new(ResultCode::Success, 0x1000).unwrap();
    let mut ledger = RootLedger::new(context);
    let builder =
        SpirvCrossContext::create_compiler_refcounted::<Reflect>(&ledger, Module::from_words(&WORDS))
            .unwrap();
    assert_eq!(builder.context(), 0x1000);
    assert_eq!(ledger.holders(), 1);
    let builder = match builder.advance(success(), 0x2000) {
        BuildStep::Call(next) => next,
        _ => panic!("the module was parsed"),
    };
    assert_eq!(ledger.holders(), 1);
    drop(builder);
    assert_eq!(ledger.holders(), 1);
    assert_eq!(ledger.release(ContextRoot::RefCounted(0x1000)), RootAction::Destroy);
    assert_eq!(ledger.destroy_calls(), 1);
}

#[test]
fn refcounted_compiler_that_fails_leaves_the_book_alone() {
    let context = SpirvCrossContext::new(ResultCode::Success, 0x1000).unwrap();
    let ledger = RootLedger::new(context);
    let builder =
        SpirvCrossContext::create_compiler_refcounted::<Reflect>(&ledger, Module::from_words(&WORDS))
            .unwrap();
    assert_eq!(builder.abandon(), RootAction::Keep);
    let builder =
        SpirvCrossContext::create_compiler_refcounted::<Reflect>(&ledger, Module::from_words(&WORDS))
            .unwrap();
    match builder.advance(ForeignStatus::new(ResultCode::UnsupportedSpirv), 0) {
        BuildStep::Failed { error: _, action } => assert_eq!(action, RootAction::Keep),
        _ => panic!("the parse failed"),
    }
    assert_eq!(ledger.holders(), 1);
    assert_eq!(ledger.destroy_calls(), 0);
}

#[test]
fn refcounted_compiler_needs_the_book_of_its_context() {
    let context = SpirvCrossContext::new(ResultCode::Success, 0x1000).unwrap();
    let other = SpirvCrossContext::new(ResultCode::Success, 0x5000).unwrap();
    let ledger = RootLedger::new(context);
    let mut foreign = RootLedger::new(other);
    let made = unshared(&ledger, &WORDS, 0x3000);
    assert!(made.share(&mut foreign).is_none());
    assert_eq!(foreign.holders(), 1);

    let mut dead = RootLedger::new(SpirvCrossContext::new(ResultCode::Success, 0x1000).unwrap());
    let made = unshared(&dead, &WORDS, 0x3000);
    assert_eq!(dead.apply(RootEvent::Release), RootAction::Destroy);
    assert!(made.share(&mut dead).is_none());
    assert_eq!(dead.holders(), 0);
    assert_eq!(dead.destroy_calls(), 1);
    assert!(SpirvCrossContext::create_compiler_refcounted::<Reflect>(
        &dead,
        Module::from_words(&WORDS)
    )
    .is_none());
}

#[test]
fn into_compiler_puts_the_context_under_shared_ownership() {
    let context = SpirvCrossContext::new(ResultCode::Success, 0x1000).unwrap();
    let builder = context.into_compiler::<Glsl>(Module::from_words(&WORDS));
    let builder = match builder.advance(success(), 0x2000) {
        BuildStep::Call(next) => next,
        _ => panic!("the module was parsed"),
    };
    let (compiler, mut ledger) = match builder.advance(success(), 0x3000) {
        BuildStep::Promoted(compiler, ledger) => (compiler, ledger),
        _ => panic!("the compiler was created"),
    };
    assert_eq!(compiler.ptr(), 0x3000);
    assert_eq!(compiler.context_root(), ContextRoot::RefCounted(0x1000));
    assert_eq!(ledger.context(), 0x1000);
    assert_eq!(ledger.holders(), 1);
    assert_eq!(ledger.destroy_calls(), 0);
    assert_eq!(ledger.release(compiler.context_root()), RootAction::Destroy);
    assert_eq!(ledger.destroy_calls(), 1);
}

#[test]
fn into_compiler_that_fails_destroys_the_context() {
    let context = SpirvCrossContext::new(ResultCode::Success, 0x1000).unwrap();
    let builder = context.into_compiler::<Glsl>(Module::from_words(&WORDS));
    match builder.advance(ForeignStatus::new(ResultCode::InvalidSpirv), 0) {
        BuildStep::Failed { error: _, action } => assert_eq!(action, RootAction::Destroy),
        _ => panic!("the parse failed"),
    }
    let context = SpirvCrossContext::new(ResultCode::Success, 0x1000).unwrap();
    let builder = context.into_compiler::<Glsl>(Module::from_words(&WORDS));
    let builder = match builder.advance(success(), 0x2000) {
        BuildStep::Call(next) => next,
        _ => panic!("the module was parsed"),
    };
    match builder.advance(success(), 0) {
        BuildStep::Failed { error, action } => {
            assert_eq!(error, SpirvCrossError::OutOfMemory(String::from("Out of memory")));
            assert_eq!(action, RootAction::Destroy);
        }
        _ => panic!("no compiler was written"),
    }
    let context = SpirvCrossContext::new(ResultCode::Success, 0x1000).unwrap();
    let builder = context.into_compiler::<Glsl>(Module::from_words(&WORDS));
    assert_eq!(builder.abandon(), RootAction::Destroy);
    let context = SpirvCrossContext::new(ResultCode::Success, 0x1000).unwrap();
    assert_eq!(
        context.create_compiler::<Glsl>(Module::from_words(&WORDS)).abandon(),
        RootAction::Keep
    );
}

#[test]
fn handle_of_another_instance_is_refused() {
    let context = SpirvCrossContext::new(ResultCode::Success, 0x1000).unwrap();
    let a = reflect_at(&context, 0x3000);
    let b = reflect_at(&context, 0x4000);
    let handle = a.create_handle(VariableId(13));
    assert_eq!(handle.id(), 13);
    assert!(a.handle_is_valid(&handle));
    assert!(!b.handle_is_valid(&handle));
    assert_eq!(a.yield_id(handle), Ok(VariableId(13)));
    assert_eq!(
        b.yield_id(handle),
        Err(SpirvCrossError::InvalidOperation(String::from(
            "The provided handle is invalid for this compiler instance"
        )))
    );
}

#[test]
fn zero_is_no_object() {
    let context = SpirvCrossContext::new(ResultCode::Success, 0x1000).unwrap();
    let compiler = reflect_at(&context, 0x3000);
    assert_eq!(compiler.create_handle_if_not_zero(VariableId(0)), None);
    assert_eq!(compiler.create_handle_if_not_zero(ConstantId(0)), None);
    let handle = compiler.create_handle_if_not_zero(TypeId(7)).unwrap();
    assert_eq!(handle.id(), 7);
    assert_eq!(handle, compiler.create_handle(TypeId(7)));
    assert!(compiler.handle_is_valid(&handle));
    assert_eq!(compiler.create_handle(VariableId(0)).id(), 0);
}

#[test]
fn phantom_issues_handles_of_its_instance() {
    let context = SpirvCrossContext::new(ResultCode::Success, 0x1000).unwrap();
    let a = reflect_at(&context, 0x3000);
    let b = reflect_at(&context, 0x4000);
    let phantom = a.phantom();
    assert_eq!(phantom.context(), 0x1000);
    let handle = phantom.create_handle(VariableId(21));
    assert_eq!(handle, a.create_handle(VariableId(21)));
    assert!(a.handle_is_valid(&handle));
    assert!(!b.handle_is_valid(&handle));
}

#[test]
fn finish_names_the_context_of_the_instance() {
    let context = SpirvCrossContext::new(ResultCode::Success, 0x1000).unwrap();
    let compiler = reflect_at(&context, 0x3000);
    assert_eq!(compiler.finish(success()), Ok(()));
    assert_eq!(
        compiler.finish(ForeignStatus::new(ResultCode::InvalidArgument)),
        Err(SpirvCrossError::Foreign {
            failure: ForeignFailure::InvalidArgument,
            message: None,
            context: 0x1000,
        })
    );
}

#[test]
fn header_line_goes_as_a_terminated_copy() {
    let context = SpirvCrossContext::new(ResultCode::Success, 0x1000).unwrap();
    let mut compiler = glsl_at(&context, 0x3000);
    assert_eq!(
        compiler.add_header_line("#define A 1"),
        Ok(ForeignCall::AddHeaderLine {
            compiler: 0x3000,
            line: MaybeOwnedCString::Owned(b"#define A 1\0".to_vec()),
        })
    );
    assert_eq!(
        compiler.add_header_line(""),
        Ok(ForeignCall::AddHeaderLine {
            compiler: 0x3000,
            line: MaybeOwnedCString::Owned(vec![0]),
        })
    );
    assert_eq!(
        compiler.add_header_line("a\0b"),
        Err(SpirvCrossError::InvalidString(NulError { nul_position: 1 }))
    );
}

#[test]
fn extension_goes_as_a_terminated_copy() {
    let context = SpirvCrossContext::new(ResultCode::Success, 0x1000).unwrap();
    let mut compiler = glsl_at(&context, 0x3000);
    assert_eq!(
        compiler.require_extension("GL_EXT_foo"),
        Ok(ForeignCall::RequireExtension {
            compiler: 0x3000,
            extension: MaybeOwnedCString::Owned(b"GL_EXT_foo\0".to_vec()),
        })
    );
    assert_eq!(
        compiler.require_extension("\0"),
        Err(SpirvCrossError::InvalidString(NulError { nul_position: 0 }))
    );
}

#[test]
fn calls_on_variables_take_only_own_handles() {
    let context = SpirvCrossContext::new(ResultCode::Success, 0x1000).unwrap();
    let mut a = glsl_at(&context, 0x3000);
    let b = glsl_at(&context, 0x4000);
    let own = a.create_handle(VariableId(5));
    let foreign = b.create_handle(VariableId(5));
    assert_eq!(
        a.flatten_buffer_block(own),
        Ok(ForeignCall::FlattenBufferBlock { compiler: 0x3000, block: 5 })
    );
    assert_eq!(
        a.variable_is_depth_or_compare(own),
        Ok(ForeignCall::VariableIsDepthOrCompare { compiler: 0x3000, variable: 5 })
    );
    let refused = SpirvCrossError::InvalidOperation(String::from(
        "The provided handle is invalid for this compiler instance",
    ));
    assert_eq!(a.flatten_buffer_block(foreign), Err(refused));
    let refused = SpirvCrossError::InvalidOperation(String::from(
        "The provided handle is invalid for this compiler instance",
    ));
    assert_eq!(a.variable_is_depth_or_compare(foreign), Err(refused));
}

#[test]
fn masks_name_their_call() {
    let context = SpirvCrossContext::new(ResultCode::Success, 0x1000).unwrap();
    let mut compiler = glsl_at(&context, 0x3000);
    assert_eq!(
        compiler.mask_stage_output_by_location(2, 3),
        ForeignCall::MaskStageOutputByLocation { compiler: 0x3000, location: 2, component: 3 }
    );
    assert_eq!(
        compiler.mask_stage_output_by_builtin(BuiltIn(1)),
        ForeignCall::MaskStageOutputByBuiltin { compiler: 0x3000, builtin: BuiltIn(1) }
    );
}

#[test]
fn strings_of_an_instance_carry_its_root() {
    let context = SpirvCrossContext::new(ResultCode::Success, 0x1000).unwrap();
    let bytes = b"main".to_vec();
    let compiler = reflect_at(&context, 0x3000);
    let kept = compiler.context_str(0x7000, &bytes);
    assert_eq!(kept.as_str(), "main");
    assert_eq!(
        kept.to_cstring_ptr(),
        Ok(MaybeOwnedCString::Borrowed(spirv_cross2::string::ContextPointer {
            pointer: 0x7000,
            context: ContextRoot::Borrowed(0x1000),
        }))
    );
    let short = compiler.short_lived_str(0x7100, &bytes);
    assert_eq!(short.as_str(), "main");
    assert_eq!(short.to_cstring_ptr().unwrap().as_ptr(), Some(0x7100));
    let lossy = compiler.short_lived_str(0x7200, &[0xc3]);
    assert_eq!(lossy.as_str(), "\u{fffd}");
    assert_eq!(lossy.to_cstring_ptr().unwrap().as_ptr(), None);
}
