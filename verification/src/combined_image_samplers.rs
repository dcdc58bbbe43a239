//! Combined image samplers, and the proof that their dummy sampler exists.
use vstd::prelude::*;
use crate::compiler::{Compiler, PhantomCompiler};
use crate::error::{invalid_operation, ErrorView, ForeignStatus, SpirvCrossError};
use crate::foreign::ForeignCall;
use crate::handle::{Handle, VariableId};

verus! {

/// A proof that `create_dummy_sampler_for_combined_images` was called.
///
/// It is good for one call of `build_combined_image_samplers`, on the
/// instance that issued it.
#[derive(Clone, Copy, Debug)]
pub struct BuiltDummySamplerProof {
    /// The handle of the dummy sampler, if one had to be created.
    pub sampler_id: Option<Handle<VariableId>>,
    label: Handle<()>,
    serial: u64,
}

/// A combined image sampler as the foreign library reports it: three bare
/// identifiers.
#[derive(Clone, Copy, Debug, PartialEq, Eq, Structural)]
pub struct RawCombinedImageSampler {
    pub combined_id: VariableId,
    pub image_id: VariableId,
    pub sampler_id: VariableId,
}

/// A combined image sampler.
#[derive(Clone, Copy, Debug, PartialEq, Eq)]
pub struct CombinedImageSampler {
    /// The handle of the combined image sampler.
    pub combined_id: Handle<VariableId>,
    /// The handle of the image that went into it.
    pub image_id: Handle<VariableId>,
    /// The handle of the sampler that went into it.
    pub sampler_id: Handle<VariableId>,
}

/// The combined image samplers of a compiler instance, one after the other.
#[derive(Clone, Copy, Debug)]
pub struct CombinedImageSamplerIter<'a, 's> {
    phantom: PhantomCompiler<'a>,
    samplers: &'s [RawCombinedImageSampler],
    position: usize,
}

/// The text of the error for a proof that cannot be redeemed.
pub open spec fn invalid_proof_text() -> Seq<char> {
    "The provided proof of building combined image samplers is invalid"@
}

/// The sampler `raw` with its identifiers as handles of the instance at
/// address `tag`.
pub open spec fn tagged(raw: RawCombinedImageSampler, tag: usize) -> CombinedImageSampler {
    CombinedImageSampler {
        combined_id: Handle::minted(raw.combined_id, tag),
        image_id: Handle::minted(raw.image_id, tag),
        sampler_id: Handle::minted(raw.sampler_id, tag),
    }
}

impl BuiltDummySamplerProof {
    /// The handle of the dummy sampler, if one had to be created.
    pub closed spec fn sampler(self) -> Option<Handle<VariableId>> {
        self.sampler_id
    }

    /// The address of the instance that issued the proof.
    pub closed spec fn issuer(self) -> usize {
        self.label.tag()
    }

    /// The number of the proof among those that its instance issued.
    pub closed spec fn serial(self) -> u64 {
        self.serial
    }

    /// The handle of the dummy sampler, if one had to be created.
    pub fn sampler_id(&self) -> (h: Option<Handle<VariableId>>)
        ensures
            h == self.sampler(),
    {
        self.sampler_id
    }
}

impl<'a, 's> CombinedImageSamplerIter<'a, 's> {
    #[verifier::type_invariant]
    spec fn in_range(self) -> bool {
        self.position <= self.samplers@.len()
    }

    /// The samplers that are still to come.
    pub closed spec fn remaining(self) -> Seq<CombinedImageSampler> {
        self.samplers@.subrange(self.position as int, self.samplers@.len() as int).map_values(
            |raw: RawCombinedImageSampler| tagged(raw, self.phantom.addr()),
        )
    }

    /// How many samplers are still to come.
    pub fn len(&self) -> (n: usize)
        ensures
            n == self.remaining().len(),
    {
        proof {
            use_type_invariant(self);
        }
        self.samplers.len() - self.position
    }

    /// The next sampler, if one is left.
    pub fn next(&mut self) -> (item: Option<CombinedImageSampler>)
        ensures
            old(self).remaining().len() == 0 ==> item is None && final(self).remaining()
                == old(self).remaining(),
            old(self).remaining().len() > 0 ==> item == Some(old(self).remaining()[0])
                && final(self).remaining() == old(self).remaining().drop_first(),
    {
        proof {
            use_type_invariant(&*self);
        }
        if self.position >= self.samplers.len() {
            return None;
        }
        let raw = self.samplers[self.position];
        let item = CombinedImageSampler {
            combined_id: self.phantom.create_handle(raw.combined_id),
            image_id: self.phantom.create_handle(raw.image_id),
            sampler_id: self.phantom.create_handle(raw.sampler_id),
        };
        let ghost before = *self;
        self.position = self.position + 1;
        proof {
            assert(self.remaining() =~= before.remaining().drop_first());
        }
        Some(item)
    }
}

impl<'a, T> Compiler<'a, T> {
    /// Whether `proof` can be redeemed at this instance: whether this
    /// instance issued it and it has not been redeemed.
    pub open spec fn redeems(self, proof: BuiltDummySamplerProof) -> bool {
        &&& proof.issuer() == self.addr()
        &&& self.outstanding().contains(proof.serial())
    }

    /// Takes the outcome of the foreign call that builds the dummy sampler
    /// for combined images: its status, and the identifier that it wrote,
    /// which is zero where no dummy sampler was needed.
    ///
    /// On success the instance issues a proof, to be redeemed by
    /// `build_combined_image_samplers`. The proof carries the handle of the
    /// dummy sampler, which can be decorated before compiling. It has a
    /// number that no proof of the instance had before, and every proof
    /// that could be redeemed before can still be redeemed.
    ///
    /// The proofs of an instance are counted, and the count has to fit.
    pub fn create_dummy_sampler_for_combined_images(
        &mut self,
        status: ForeignStatus,
        var_id: VariableId,
    ) -> (r: Result<BuiltDummySamplerProof, SpirvCrossError>)
        requires
            old(self).issued() < u64::MAX,
        ensures
            final(self).addr() == old(self).addr(),
            final(self).root() == old(self).root(),
            match status.translated(old(self).root().context()) {
                Err(e) => r is Err && r->Err_0@ == e && *final(self) == *old(self),
                Ok(_) => {
                    &&& r is Ok
                    &&& r->Ok_0.sampler() == if var_id.0 == 0 {
                        None
                    } else {
                        Some(Handle::minted(var_id, old(self).addr()))
                    }
                    &&& r->Ok_0.issuer() == old(self).addr()
                    &&& r->Ok_0.serial() == old(self).issued()
                    &&& final(self).issued() == old(self).issued() + 1
                    &&& !old(self).outstanding().contains(r->Ok_0.serial())
                    &&& final(self).outstanding() == old(self).outstanding().insert(
                        r->Ok_0.serial(),
                    )
                    &&& final(self).redeems(r->Ok_0)
                    &&& forall|p: BuiltDummySamplerProof| #[trigger]
                        old(self).redeems(p) ==> final(self).redeems(p)
                },
            },
    {
        match self.finish(status) {
            Err(e) => Err(e),
            Ok(_) => {
                let sampler_id = self.create_handle_if_not_zero(var_id);
                let label = self.create_handle(());
                let serial = self.issue_serial();
                Ok(BuiltDummySamplerProof { sampler_id, label, serial })
            },
        }
    }

    /// The same as `create_dummy_sampler_for_combined_images`, for a caller
    /// that does not know how many proofs the instance has issued: where
    /// the count is at its limit, nothing is done and `None` comes back.
    pub fn checked_create_dummy_sampler_for_combined_images(
        &mut self,
        status: ForeignStatus,
        var_id: VariableId,
    ) -> (r: Option<Result<BuiltDummySamplerProof, SpirvCrossError>>)
        ensures
            final(self).addr() == old(self).addr(),
            final(self).root() == old(self).root(),
            old(self).issued() == u64::MAX ==> r is None && *final(self) == *old(self),
            old(self).issued() < u64::MAX ==> r is Some && match status.translated(
                old(self).root().context(),
            ) {
                Err(e) => r->Some_0 is Err && r->Some_0->Err_0@ == e && *final(self) == *old(self),
                Ok(_) => {
                    &&& r->Some_0 is Ok
                    &&& r->Some_0->Ok_0.sampler() == if var_id.0 == 0 {
                        None
                    } else {
                        Some(Handle::minted(var_id, old(self).addr()))
                    }
                    &&& r->Some_0->Ok_0.issuer() == old(self).addr()
                    &&& r->Some_0->Ok_0.serial() == old(self).issued()
                    &&& final(self).issued() == old(self).issued() + 1
                    &&& !old(self).outstanding().contains(r->Some_0->Ok_0.serial())
                    &&& final(self).outstanding() == old(self).outstanding().insert(
                        r->Some_0->Ok_0.serial(),
                    )
                },
            },
    {
        if self.proofs_issued() == u64::MAX {
            None
        } else {
            Some(self.create_dummy_sampler_for_combined_images(status, var_id))
        }
    }

    /// Redeems `proof` and names the foreign call that reroutes separate
    /// images and samplers to combined image samplers.
    ///
    /// A proof that this instance cannot redeem is refused, with the
    /// instance left as it was and no call to make: one that another
    /// instance issued, and one that was redeemed before.
    pub fn build_combined_image_samplers(&mut self, proof: BuiltDummySamplerProof) -> (r: Result<
        ForeignCall<'static>,
        SpirvCrossError,
    >)
        ensures
            final(self).addr() == old(self).addr(),
            final(self).root() == old(self).root(),
            final(self).issued() == old(self).issued(),
            old(self).redeems(proof) ==> {
                &&& r == Ok::<ForeignCall<'static>, SpirvCrossError>(
                    ForeignCall::BuildCombinedImageSamplers { compiler: old(self).addr() },
                )
                &&& final(self).outstanding() == old(self).outstanding().remove(proof.serial())
                &&& !final(self).redeems(proof)
                &&& forall|p: BuiltDummySamplerProof| #[trigger]
                    old(self).redeems(p) && p.serial() != proof.serial() ==> final(self).redeems(
                        p,
                    )
            },
            !old(self).redeems(proof) ==> {
                &&& r is Err
                &&& r->Err_0@ == ErrorView::InvalidOperation(invalid_proof_text())
                &&& *final(self) == *old(self)
            },
    {
        if !self.handle_is_valid(&proof.label) {
            return Err(
                invalid_operation(
                    "The provided proof of building combined image samplers is invalid",
                ),
            );
        }
        if !self.redeem_serial(proof.serial) {
            return Err(
                invalid_operation(
                    "The provided proof of building combined image samplers is invalid",
                ),
            );
        }
        Ok(ForeignCall::BuildCombinedImageSamplers { compiler: self.ptr() })
    }

    /// Takes the outcome of the foreign call that lists the combined image
    /// samplers: its status, and the list. The samplers come out with their
    /// identifiers as handles of this instance, in the order of the list.
    pub fn combined_image_samplers<'s>(
        &self,
        status: ForeignStatus,
        samplers: &'s [RawCombinedImageSampler],
    ) -> (r: Result<CombinedImageSamplerIter<'a, 's>, SpirvCrossError>)
        ensures
            match status.translated(self.root().context()) {
                Err(e) => r is Err && r->Err_0@ == e,
                Ok(_) => r is Ok && r->Ok_0.remaining() == samplers@.map_values(
                    |raw: RawCombinedImageSampler| tagged(raw, self.addr()),
                ),
            },
    {
        match self.finish(status) {
            Err(e) => Err(e),
            Ok(_) => {
                let iter = CombinedImageSamplerIter {
                    phantom: self.phantom(),
                    samplers,
                    position: 0,
                };
                proof {
                    assert(samplers@.subrange(0, samplers@.len() as int) =~= samplers@);
                }
                Ok(iter)
            },
        }
    }
}

/// A proof that one compiler instance issued is worth nothing at any other
/// instance, whatever the state of either.
pub proof fn foreign_proof_is_refused<'a, 'b, T, U>(
    a: Compiler<'a, T>,
    b: Compiler<'b, U>,
    proof: BuiltDummySamplerProof,
)
    requires
        proof.issuer() == a.addr(),
        a.addr() != b.addr(),
    ensures
        !b.redeems(proof),
{
}

} // verus!
