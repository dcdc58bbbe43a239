use spirv_cross2::builder::{BuildStep, Module};
use spirv_cross2::combined_image_samplers::{CombinedImageSampler, RawCombinedImageSampler};
use spirv_cross2::compiler::Compiler;
use spirv_cross2::context::SpirvCrossContext;
use spirv_cross2::error::{ForeignFailure, ForeignStatus, ResultCode, SpirvCrossError};
use spirv_cross2::foreign::ForeignCall;
use spirv_cross2::handle::VariableId;
use spirv_cross2::targets::Reflect;

fn success() -> ForeignStatus {
    ForeignStatus::new(ResultCode::Success)
}

fn compiler_at(address: usize) -> Compiler<'static, Reflect> {
    let context = SpirvCrossContext::new(ResultCode::Success, 0x1000).unwrap();
    let words = [0x0723_0203u32, 0x0001_0000, 0, 1, 0];
    let builder = context.into_compiler::<Reflect>(Module::from_words(&words));
    let builder = match builder.advance(success(), 0x2000) {
        BuildStep::Call(next) => next,
        _ => panic!("the module was parsed"),
    };
    match builder.advance(success(), address) {
        BuildStep::Promoted(compiler, _) => compiler,
        _ => panic!("the compiler was created"),
    }
}

fn invalid_proof() -> SpirvCrossError {
    SpirvCrossError::InvalidOperation(String::from(
        "The provided proof of building combined image samplers is invalid",
    ))
}

#[test]
fn test_combined_image_sampler_build() {
    let mut compiler = compiler_at(0x3000);

    let proof =
        compiler.create_dummy_sampler_for_combined_images(success(), VariableId(0)).unwrap();
    let call = compiler.build_combined_image_samplers(proof).unwrap();
    assert_eq!(call, ForeignCall::BuildCombinedImageSamplers { compiler: 0x3000 });
    assert_eq!(compiler.finish(success()), Ok(()));
}

#[test]
fn dummy_sampler_comes_as_a_handle() {
    let mut compiler = compiler_at(0x3000);
    let proof =
        compiler.create_dummy_sampler_for_combined_images(success(), VariableId(40)).unwrap();
    assert_eq!(proof.sampler_id, Some(compiler.create_handle(VariableId(40))));
    assert_eq!(proof.sampler_id(), Some(compiler.create_handle(VariableId(40))));
    let proof =
        compiler.create_dummy_sampler_for_combined_images(success(), VariableId(0)).unwrap();
    assert_eq!(proof.sampler_id, None);
    assert_eq!(proof.sampler_id(), None);
}

#[test]
fn failed_dummy_sampler_gives_no_proof() {
    let mut compiler = compiler_at(0x3000);
    let status =
        ForeignStatus { code: ResultCode::InvalidArgument, message: Some(String::from("no")) };
    let failed = compiler.create_dummy_sampler_for_combined_images(status, VariableId(40));
    assert_eq!(
        failed.err(),
        Some(SpirvCrossError::Foreign {
            failure: ForeignFailure::InvalidArgument,
            message: Some(String::from("no")),
            context: 0x1000,
        })
    );
}

#[test]
fn proof_of_another_instance_is_refused() {
    let mut a = compiler_at(0x3000);
    let mut b = compiler_at(0x4000);
    let of_a = a.create_dummy_sampler_for_combined_images(success(), VariableId(0)).unwrap();
    let of_b = b.create_dummy_sampler_for_combined_images(success(), VariableId(0)).unwrap();
    assert_eq!(b.build_combined_image_samplers(of_a), Err(invalid_proof()));
    assert_eq!(a.build_combined_image_samplers(of_b), Err(invalid_proof()));
    assert_eq!(
        a.build_combined_image_samplers(of_a),
        Ok(ForeignCall::BuildCombinedImageSamplers { compiler: 0x3000 })
    );
    assert_eq!(
        b.build_combined_image_samplers(of_b),
        Ok(ForeignCall::BuildCombinedImageSamplers { compiler: 0x4000 })
    );
}

#[test]
fn proof_is_redeemed_once() {
    let mut compiler = compiler_at(0x3000);
    let proof =
        compiler.create_dummy_sampler_for_combined_images(success(), VariableId(0)).unwrap();
    assert!(compiler.build_combined_image_samplers(proof).is_ok());
    assert_eq!(compiler.build_combined_image_samplers(proof), Err(invalid_proof()));
}

#[test]
fn earlier_proof_stays_good_after_a_later_one() {
    let mut compiler = compiler_at(0x3000);
    let first =
        compiler.create_dummy_sampler_for_combined_images(success(), VariableId(0)).unwrap();
    let second =
        compiler.create_dummy_sampler_for_combined_images(success(), VariableId(0)).unwrap();
    let third =
        compiler.create_dummy_sampler_for_combined_images(success(), VariableId(0)).unwrap();
    assert_eq!(
        compiler.build_combined_image_samplers(first),
        Ok(ForeignCall::BuildCombinedImageSamplers { compiler: 0x3000 })
    );
    assert_eq!(
        compiler.build_combined_image_samplers(third),
        Ok(ForeignCall::BuildCombinedImageSamplers { compiler: 0x3000 })
    );
    assert_eq!(compiler.build_combined_image_samplers(first), Err(invalid_proof()));
    assert_eq!(
        compiler.build_combined_image_samplers(second),
        Ok(ForeignCall::BuildCombinedImageSamplers { compiler: 0x3000 })
    );
    assert_eq!(compiler.build_combined_image_samplers(second), Err(invalid_proof()));
    assert_eq!(compiler.build_combined_image_samplers(third), Err(invalid_proof()));
}

#[test]
fn failed_dummy_sampler_leaves_earlier_proofs_good() {
    let mut compiler = compiler_at(0x3000);
    let proof =
        compiler.create_dummy_sampler_for_combined_images(success(), VariableId(0)).unwrap();
    let failed = compiler.create_dummy_sampler_for_combined_images(
        ForeignStatus::new(ResultCode::InvalidArgument),
        VariableId(0),
    );
    assert!(failed.is_err());
    assert!(compiler.build_combined_image_samplers(proof).is_ok());
}

#[test]
fn refused_proof_leaves_the_others_good() {
    let mut a = compiler_at(0x3000);
    let mut b = compiler_at(0x4000);
    let of_a = a.create_dummy_sampler_for_combined_images(success(), VariableId(0)).unwrap();
    let of_b = b.create_dummy_sampler_for_combined_images(success(), VariableId(0)).unwrap();
    assert_eq!(a.build_combined_image_samplers(of_b), Err(invalid_proof()));
    assert!(a.build_combined_image_samplers(of_a).is_ok());
}

#[test]
fn samplers_come_in_order_as_handles() {
    let compiler = compiler_at(0x3000);
    let other = compiler_at(0x4000);
    let raw = [
        RawCombinedImageSampler {
            combined_id: VariableId(30),
            image_id: VariableId(10),
            sampler_id: VariableId(20),
        },
        RawCombinedImageSampler {
            combined_id: VariableId(31),
            image_id: VariableId(11),
            sampler_id: VariableId(20),
        },
    ];
    let mut samplers = compiler.combined_image_samplers(success(), &raw).unwrap();
    assert_eq!(samplers.len(), 2);
    let first = samplers.next().unwrap();
    assert_eq!(
        first,
        CombinedImageSampler {
            combined_id: compiler.create_handle(VariableId(30)),
            image_id: compiler.create_handle(VariableId(10)),
            sampler_id: compiler.create_handle(VariableId(20)),
        }
    );
    assert!(compiler.handle_is_valid(&first.combined_id));
    assert!(!other.handle_is_valid(&first.combined_id));
    assert_eq!(samplers.len(), 1);
    let second = samplers.next().unwrap();
    assert_eq!(second.combined_id.id(), 31);
    assert_eq!(second.image_id.id(), 11);
    assert_eq!(second.sampler_id.id(), 20);
    assert_eq!(samplers.len(), 0);
    assert_eq!(samplers.next(), None);
    assert_eq!(samplers.next(), None);
}

#[test]
fn no_samplers_is_an_empty_list() {
    let compiler = compiler_at(0x3000);
    let mut samplers = compiler.combined_image_samplers(success(), &[]).unwrap();
    assert_eq!(samplers.len(), 0);
    assert_eq!(samplers.next(), None);
}

#[test]
fn samplers_that_could_not_be_listed() {
    let compiler = compiler_at(0x3000);
    let failed =
        compiler.combined_image_samplers(ForeignStatus::new(ResultCode::OutOfMemory), &[]);
    assert_eq!(failed.err(), Some(SpirvCrossError::OutOfMemory(String::from("Out of memory"))));
}

#[test]
fn proofs_are_counted() {
    let mut compiler = compiler_at(0x3000);
    assert_eq!(compiler.proofs_issued(), 0);
    let first =
        compiler.create_dummy_sampler_for_combined_images(success(), VariableId(0)).unwrap();
    assert_eq!(compiler.proofs_issued(), 1);
    let failed = compiler.checked_create_dummy_sampler_for_combined_images(
        ForeignStatus::new(ResultCode::OutOfMemory),
        VariableId(0),
    );
    assert!(matches!(failed, Some(Err(SpirvCrossError::OutOfMemory(_)))));
    assert_eq!(compiler.proofs_issued(), 1);
    let second = compiler
        .checked_create_dummy_sampler_for_combined_images(success(), VariableId(9))
        .unwrap()
        .unwrap();
    assert_eq!(compiler.proofs_issued(), 2);
    assert_eq!(second.sampler_id(), Some(compiler.create_handle(VariableId(9))));
    assert!(compiler.build_combined_image_samplers(second).is_ok());
    assert!(compiler.build_combined_image_samplers(first).is_ok());
    assert_eq!(compiler.proofs_issued(), 2);
}
