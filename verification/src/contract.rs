//! The registry itself: the record store and the aggregate index behind the
//! three operations of the workflow (submit, update, verify) and the
//! queries.
//!
//! The registry reads neither a clock nor an identity of its own: each
//! operation is told who calls it and, where it matters, when.

use vstd::prelude::*;

use crate::address::Address;
use crate::bytes::{copy_bytes, tags_view};
use crate::certificate::{CertificateData, CertificateView, VerificationStatus};
use crate::error::ContractError;
use crate::events::{ContractEvent, EventView};
use crate::index::{AggregateIndex, IndexView};
use crate::laws::{law_new_registry_in_order, law_order_is_kept, Operation};
use crate::rules::{
    apply_update,
    apply_verification,
    bytes_option,
    check_submission,
    new_certificate,
    submission_check,
    submitted_certificate,
    tags_option,
    update_check,
    updated_certificate,
    valid_proof_id,
    verification_check,
    verified_certificate,
};
use crate::store::{RecordStore, RecordsView};

verus! {

/// The version that a new registry reports: the bytes of `1.0.0`.
pub open spec fn initial_version() -> Seq<u8> {
    seq![49u8, 46u8, 48u8, 46u8, 48u8]
}

/// The views of a list of certificates.
pub open spec fn certificates_view(certificates: Seq<CertificateData>) -> Seq<CertificateView> {
    Seq::new(certificates.len(), |i: int| certificates[i]@)
}

/// The records that the store holds for the owner under the given
/// identifiers, in their order, without those that stand for no certificate.
pub open spec fn present_certificates(
    store: RecordsView,
    owner: Address,
    proof_ids: Seq<Seq<u8>>,
) -> Seq<CertificateView>
    decreases proof_ids.len(),
{
    if proof_ids.len() == 0 {
        Seq::empty()
    } else {
        let earlier = present_certificates(store, owner, proof_ids.drop_last());
        let record = store.get(owner, proof_ids.last());
        if record.is_present() {
            earlier.push(record)
        } else {
            earlier
        }
    }
}

/// The state of a registry, as mathematical values.
#[verifier::ext_equal]
pub struct ContractView {
    pub store: RecordsView,
    pub index: IndexView,
    pub contract_version: Seq<u8>,
}

impl ContractView {
    /// The state of a new registry: nothing stored, nothing counted.
    pub open spec fn init() -> ContractView {
        ContractView {
            store: RecordsView::empty(),
            index: IndexView::empty(),
            contract_version: initial_version(),
        }
    }

    /// The counters agree with the records: the total is the number of
    /// records, and no category counts more than the total.
    pub open spec fn consistent(self) -> bool {
        &&& self.store.records.dom().finite()
        &&& self.index.total == self.store.records.dom().len()
        &&& forall|category: Seq<u8>| #[trigger]
            self.index.get_category_count(category) <= self.index.total
    }

    /// Every record is stored under the account that created it and under
    /// the identifier that it carries, and that identifier has an accepted
    /// length.
    pub open spec fn keyed_by_creator(self) -> bool {
        forall|owner: Address, proof_id: Seq<u8>| #[trigger]
            self.store.contains(owner, proof_id) ==> {
                &&& self.store.get(owner, proof_id).created_by == owner
                &&& self.store.get(owner, proof_id).proof_id == proof_id
                &&& valid_proof_id(proof_id)
            }
    }

    /// Each owner's list holds the identifiers under which the owner has a
    /// record, each of them once, and no other.
    pub open spec fn indexed(self) -> bool {
        &&& forall|owner: Address, proof_id: Seq<u8>|
            #![trigger self.store.contains(owner, proof_id)]
            #![trigger self.store.list_owned(owner).contains(proof_id)]
            self.store.contains(owner, proof_id) <==> self.store.list_owned(owner).contains(
                proof_id,
            )
        &&& forall|owner: Address| #[trigger] self.store.list_owned(owner).no_duplicates()
    }

    /// The registry is in order: counters, records and lists agree. This
    /// holds of a new registry and every operation keeps it.
    pub open spec fn in_order(self) -> bool {
        &&& self.consistent()
        &&& self.keyed_by_creator()
        &&& self.indexed()
    }

    /// The verdict on a submission by `caller`.
    pub open spec fn certify_check(
        self,
        caller: Address,
        proof_text: Seq<u8>,
        proof_id: Seq<u8>,
    ) -> Result<(), ContractError> {
        submission_check(proof_text, proof_id, self.store.contains(caller, proof_id))
    }

    /// The state after a submission by `caller`. An accepted submission
    /// stores the new certificate, adds its identifier to the caller's list,
    /// and counts it in the total and under its category; a rejected one
    /// changes nothing.
    pub open spec fn certify_action(
        self,
        caller: Address,
        timestamp: u64,
        proof_text: Seq<u8>,
        proof_id: Seq<u8>,
        category: Option<Seq<u8>>,
        metadata: Option<Seq<u8>>,
        ai_tags: Option<Seq<Seq<u8>>>,
    ) -> ContractView {
        if self.certify_check(caller, proof_text, proof_id) is Ok {
            let certificate = submitted_certificate(
                caller,
                timestamp,
                proof_text,
                proof_id,
                category,
                metadata,
                ai_tags,
            );
            ContractView {
                store: self.store.put(caller, proof_id, certificate).append_owner_index(
                    caller,
                    proof_id,
                ),
                index: self.index.increment_total().increment_category(certificate.category),
                ..self
            }
        } else {
            self
        }
    }

    /// The event that an accepted submission reports.
    pub open spec fn certify_event(
        caller: Address,
        timestamp: u64,
        proof_text: Seq<u8>,
        proof_id: Seq<u8>,
        category: Option<Seq<u8>>,
        metadata: Option<Seq<u8>>,
    ) -> EventView {
        let certificate = submitted_certificate(
            caller,
            timestamp,
            proof_text,
            proof_id,
            category,
            metadata,
            None,
        );
        EventView::CertificateCreated {
            user: caller,
            proof_id,
            proof_text,
            category: certificate.category,
            metadata: certificate.metadata,
            timestamp,
        }
    }

    /// The verdict on an update by `caller` of the record that the caller
    /// holds under the identifier.
    pub open spec fn update_check(self, caller: Address, proof_id: Seq<u8>) -> Result<
        (),
        ContractError,
    > {
        update_check(self.store.get(caller, proof_id), caller)
    }

    /// The state after an update by `caller`. An accepted update replaces
    /// the fields given in the caller's record; the counters stay as they
    /// are, whatever the category becomes. A rejected one changes nothing.
    pub open spec fn update_proof(
        self,
        caller: Address,
        proof_id: Seq<u8>,
        new_proof_text: Option<Seq<u8>>,
        new_category: Option<Seq<u8>>,
        new_metadata: Option<Seq<u8>>,
        new_ai_tags: Option<Seq<Seq<u8>>>,
    ) -> ContractView {
        if self.update_check(caller, proof_id) is Ok {
            ContractView {
                store: self.store.put(
                    caller,
                    proof_id,
                    updated_certificate(
                        self.store.get(caller, proof_id),
                        new_proof_text,
                        new_category,
                        new_metadata,
                        new_ai_tags,
                    ),
                ),
                ..self
            }
        } else {
            self
        }
    }

    /// The verdict on a verification by `caller` of the record that `user`
    /// holds under the identifier, where `verifier` is the identity that may
    /// verify.
    pub open spec fn verify_check(
        self,
        caller: Address,
        verifier: Address,
        user: Address,
        proof_id: Seq<u8>,
    ) -> Result<(), ContractError> {
        verification_check(self.store.get(user, proof_id), caller, verifier)
    }

    /// The state after a verification. An accepted verification writes score
    /// and status into the record and stores the analysis beside it; a
    /// rejected one changes nothing.
    pub open spec fn ai_verify(
        self,
        caller: Address,
        verifier: Address,
        user: Address,
        proof_id: Seq<u8>,
        confidence_score: u32,
        verification_status: VerificationStatus,
        ai_analysis: Seq<u8>,
    ) -> ContractView {
        if self.verify_check(caller, verifier, user, proof_id) is Ok {
            ContractView {
                store: self.store.put(
                    user,
                    proof_id,
                    verified_certificate(
                        self.store.get(user, proof_id),
                        confidence_score,
                        verification_status,
                    ),
                ).put_analysis(user, proof_id, ai_analysis),
                ..self
            }
        } else {
            self
        }
    }

    /// The record that `user` holds under the identifier, or the empty
    /// record.
    pub open spec fn get_proof(self, user: Address, proof_id: Seq<u8>) -> CertificateView {
        self.store.get(user, proof_id)
    }

    /// The certificates of `user`, oldest first.
    pub open spec fn get_user_proofs(self, user: Address) -> Seq<CertificateView> {
        present_certificates(self.store, user, self.store.list_owned(user))
    }

    /// The analysis stored for the record that `user` holds under the
    /// identifier, or no bytes.
    pub open spec fn get_ai_analysis(self, user: Address, proof_id: Seq<u8>) -> Seq<u8> {
        self.store.get_analysis(user, proof_id)
    }

    /// The number of certificates created.
    pub open spec fn get_total_proofs(self) -> nat {
        self.index.total
    }

    /// The number of certificates created under the category.
    pub open spec fn get_category_stats(self, category: Seq<u8>) -> nat {
        self.index.get_category_count(category)
    }
}

/// The certificate registry.
pub struct MvxProofMindContract {
    store: RecordStore,
    index: AggregateIndex,
    contract_version: Vec<u8>,
}

impl MvxProofMindContract {
    /// The registry is well formed: its parts are, and its state is in
    /// order.
    pub closed spec fn wf(&self) -> bool {
        &&& self.store.wf()
        &&& self.index.wf()
        &&& self@.in_order()
    }

    /// The state of the registry.
    pub closed spec fn view(&self) -> ContractView {
        ContractView {
            store: self.store@,
            index: self.index@,
            contract_version: self.contract_version@,
        }
    }

    /// The state of a registry is in order: its counters, records and lists
    /// agree.
    pub proof fn lemma_in_order(&self)
        requires
            self.wf(),
        ensures
            self@.in_order(),
    {
    }

    /// A new registry: nothing stored, nothing counted, version `1.0.0`.
    pub fn init() -> (contract: MvxProofMindContract)
        ensures
            contract.wf(),
            contract@ == ContractView::init(),
    {
        let mut contract_version: Vec<u8> = Vec::new();
        contract_version.push(49u8);
        contract_version.push(46u8);
        contract_version.push(48u8);
        contract_version.push(46u8);
        contract_version.push(48u8);
        let contract = MvxProofMindContract {
            store: RecordStore::new(),
            index: AggregateIndex::new(),
            contract_version,
        };
        assert(contract@ =~= ContractView::init());
        proof {
            law_new_registry_in_order();
        }
        contract
    }

    /// Submits a claim for `caller` at the time `timestamp`.
    ///
    /// The text must have 10 to 1000 bytes, the identifier 5 to 100, and the
    /// caller must not have used the identifier before; the first of these
    /// that fails gives the error. An accepted claim is stored as a pending
    /// certificate and reported by the event returned.
    pub fn certify_action(
        &mut self,
        caller: &Address,
        timestamp: u64,
        proof_text: Vec<u8>,
        proof_id: Vec<u8>,
        category: Option<Vec<u8>>,
        metadata: Option<Vec<u8>>,
        ai_tags: Option<Vec<Vec<u8>>>,
    ) -> (outcome: Result<ContractEvent, ContractError>)
        requires
            old(self).wf(),
        ensures
            final(self).wf(),
            final(self)@ == old(self)@.certify_action(
                *caller,
                timestamp,
                proof_text@,
                proof_id@,
                bytes_option(category),
                bytes_option(metadata),
                tags_option(ai_tags),
            ),
            match outcome {
                Ok(event) => old(self)@.certify_check(*caller, proof_text@, proof_id@) is Ok
                    && event@ == ContractView::certify_event(
                    *caller,
                    timestamp,
                    proof_text@,
                    proof_id@,
                    bytes_option(category),
                    bytes_option(metadata),
                ),
                Err(error) => old(self)@.certify_check(*caller, proof_text@, proof_id@) == Err::<
                    (),
                    ContractError,
                >(error),
            },
    {
        let taken = self.store.contains(caller, &proof_id);
        match check_submission(&proof_text, &proof_id, taken) {
            Err(error) => {
                return Err(error);
            },
            Ok(_) => {},
        }
        let key_id = copy_bytes(&proof_id);
        let event_text = copy_bytes(&proof_text);
        let certificate = new_certificate(
            *caller,
            timestamp,
            proof_text,
            proof_id,
            category,
            metadata,
            ai_tags,
        );
        let label = copy_bytes(&certificate.category);
        let event = ContractEvent::CertificateCreated {
            user: *caller,
            proof_id: copy_bytes(&key_id),
            proof_text: event_text,
            category: copy_bytes(&certificate.category),
            metadata: copy_bytes(&certificate.metadata),
            timestamp,
        };
        self.store.put(caller, &key_id, certificate);
        self.store.append_owner_index(caller, &key_id);
        proof {
            self.store.lemma_records_bounded();
            assert(self.store@.records.dom() =~= old(self)@.store.records.dom().insert(
                (*caller, key_id@),
            ));
        }
        self.index.increment_total();
        assert(self.index@.get_category_count(label@) == old(self)@.index.get_category_count(
            label@,
        ));
        self.index.increment_category(&label);
        proof {
            let before = old(self)@;
            let after = before.certify_action(
                *caller,
                timestamp,
                proof_text@,
                proof_id@,
                bytes_option(category),
                bytes_option(metadata),
                tags_option(ai_tags),
            );
            assert(self@ =~= after);
            law_order_is_kept(
                before,
                Operation::Submit {
                    caller: *caller,
                    timestamp,
                    proof_text: proof_text@,
                    proof_id: proof_id@,
                    category: bytes_option(category),
                    metadata: bytes_option(metadata),
                    ai_tags: tags_option(ai_tags),
                },
            );
        }
        Ok(event)
    }

    /// Replaces fields of the certificate that `caller` holds under the
    /// identifier; a field for which nothing is given stays as it is.
    ///
    /// The replacements are stored as they are given, whatever their
    /// length. A certificate whose text is replaced by no bytes reads as
    /// absent from then on, though its identifier stays used. The counters
    /// of the categories are not touched.
    pub fn update_proof(
        &mut self,
        caller: &Address,
        timestamp: u64,
        proof_id: Vec<u8>,
        new_proof_text: Option<Vec<u8>>,
        new_category: Option<Vec<u8>>,
        new_metadata: Option<Vec<u8>>,
        new_ai_tags: Option<Vec<Vec<u8>>>,
    ) -> (outcome: Result<ContractEvent, ContractError>)
        requires
            old(self).wf(),
        ensures
            final(self).wf(),
            final(self)@ == old(self)@.update_proof(
                *caller,
                proof_id@,
                bytes_option(new_proof_text),
                bytes_option(new_category),
                bytes_option(new_metadata),
                tags_option(new_ai_tags),
            ),
            match outcome {
                Ok(event) => old(self)@.update_check(*caller, proof_id@) is Ok && event@ == (
                EventView::CertificateUpdated { user: *caller, proof_id: proof_id@, timestamp }),
                Err(error) => old(self)@.update_check(*caller, proof_id@) == Err::<
                    (),
                    ContractError,
                >(error),
            },
    {
        let stored = self.store.get(caller, &proof_id);
        match apply_update(
            stored,
            caller,
            new_proof_text,
            new_category,
            new_metadata,
            new_ai_tags,
        ) {
            Err(error) => Err(error),
            Ok(certificate) => {
                self.store.put(caller, &proof_id, certificate);
                proof {
                    assert(self@ =~= old(self)@.update_proof(
                        *caller,
                        proof_id@,
                        bytes_option(new_proof_text),
                        bytes_option(new_category),
                        bytes_option(new_metadata),
                        tags_option(new_ai_tags),
                    ));
                    law_order_is_kept(
                        old(self)@,
                        Operation::Update {
                            caller: *caller,
                            proof_id: proof_id@,
                            new_proof_text: bytes_option(new_proof_text),
                            new_category: bytes_option(new_category),
                            new_metadata: bytes_option(new_metadata),
                            new_ai_tags: tags_option(new_ai_tags),
                        },
                    );
                }
                Ok(ContractEvent::CertificateUpdated { user: *caller, proof_id, timestamp })
            },
        }
    }

    /// Attaches the verifier's score, status and analysis to the
    /// certificate that `user` holds under the identifier.
    ///
    /// Only `verifier` may do so: a `caller` that is someone else is turned
    /// away before the record is looked at. The score is stored as given.
    pub fn ai_verify(
        &mut self,
        caller: &Address,
        verifier: &Address,
        user: &Address,
        proof_id: Vec<u8>,
        confidence_score: u32,
        verification_status: VerificationStatus,
        ai_analysis: Vec<u8>,
    ) -> (outcome: Result<ContractEvent, ContractError>)
        requires
            old(self).wf(),
        ensures
            final(self).wf(),
            final(self)@ == old(self)@.ai_verify(
                *caller,
                *verifier,
                *user,
                proof_id@,
                confidence_score,
                verification_status,
                ai_analysis@,
            ),
            match outcome {
                Ok(event) => old(self)@.verify_check(*caller, *verifier, *user, proof_id@) is Ok
                    && event@ == (EventView::AiVerification {
                    user: *user,
                    proof_id: proof_id@,
                    verification_status,
                    confidence_score,
                    ai_analysis: ai_analysis@,
                }),
                Err(error) => old(self)@.verify_check(*caller, *verifier, *user, proof_id@)
                    == Err::<(), ContractError>(error),
            },
    {
        let stored = self.store.get(user, &proof_id);
        match apply_verification(stored, caller, verifier, confidence_score, verification_status) {
            Err(error) => Err(error),
            Ok(certificate) => {
                self.store.put(user, &proof_id, certificate);
                self.store.put_analysis(user, &proof_id, copy_bytes(&ai_analysis));
                proof {
                    assert(self@ =~= old(self)@.ai_verify(
                        *caller,
                        *verifier,
                        *user,
                        proof_id@,
                        confidence_score,
                        verification_status,
                        ai_analysis@,
                    ));
                    law_order_is_kept(
                        old(self)@,
                        Operation::Verify {
                            caller: *caller,
                            verifier: *verifier,
                            user: *user,
                            proof_id: proof_id@,
                            confidence_score,
                            verification_status,
                            ai_analysis: ai_analysis@,
                        },
                    );
                }
                Ok(
                    ContractEvent::AiVerification {
                        user: *user,
                        proof_id,
                        verification_status,
                        confidence_score,
                        ai_analysis,
                    },
                )
            },
        }
    }

    /// The record that `user` holds under the identifier, or the empty
    /// record where there is none. The state alone decides the answer, so
    /// reading again without a change in between gives the same record.
    pub fn get_proof(&self, user: &Address, proof_id: &Vec<u8>) -> (certificate: CertificateData)
        requires
            self.wf(),
        ensures
            certificate@ == self@.get_proof(*user, proof_id@),
    {
        self.store.get(user, proof_id)
    }

    /// The certificates of `user`, oldest first. An identifier of the
    /// user's list whose record has no text is passed over.
    pub fn get_user_proofs(&self, user: &Address) -> (proofs: Vec<CertificateData>)
        requires
            self.wf(),
        ensures
            certificates_view(proofs@) == self@.get_user_proofs(*user),
    {
        let proof_ids = self.store.list_owned(user);
        let ghost ids = tags_view(proof_ids@);
        let mut proofs: Vec<CertificateData> = Vec::new();
        let mut i: usize = 0;
        assert(certificates_view(proofs@) =~= present_certificates(
            self.store@,
            *user,
            ids.subrange(0, 0),
        ));
        while i < proof_ids.len()
            invariant
                self.wf(),
                i <= proof_ids.len(),
                ids == tags_view(proof_ids@),
                certificates_view(proofs@) == present_certificates(
                    self.store@,
                    *user,
                    ids.subrange(0, i as int),
                ),
            decreases proof_ids.len() - i,
        {
            let certificate = self.store.get(user, &proof_ids[i]);
            proof {
                let next = ids.subrange(0, i + 1);
                assert(next.drop_last() =~= ids.subrange(0, i as int));
                assert(next.last() == proof_ids@[i as int]@);
            }
            let ghost earlier = certificates_view(proofs@);
            if certificate.is_present() {
                proofs.push(certificate);
                assert(certificates_view(proofs@) =~= earlier.push(certificate@));
            }
            i = i + 1;
        }
        assert(ids.subrange(0, i as int) =~= ids);
        proofs
    }

    /// The certificates of a category: always none. The registry keeps no
    /// list of certificates by category, so this query is not supported and
    /// answers with the empty list whatever is asked.
    #[allow(unused_variables)]
    pub fn get_certificates_by_category(&self, category: &Vec<u8>, limit: usize) -> (proofs: Vec<
        CertificateData,
    >)
        ensures
            proofs@ == Seq::<CertificateData>::empty(),
    {
        Vec::new()
    }

    /// The analysis that the verifier stored for the record that `user`
    /// holds under the identifier, or no bytes where there is none.
    pub fn get_ai_analysis(&self, user: &Address, proof_id: &Vec<u8>) -> (analysis: Vec<u8>)
        requires
            self.wf(),
        ensures
            analysis@ == self@.get_ai_analysis(*user, proof_id@),
    {
        self.store.get_analysis(user, proof_id)
    }

    /// The number of certificates created.
    pub fn get_total_proofs(&self) -> (total: u64)
        ensures
            total == self@.get_total_proofs(),
    {
        self.index.get_total()
    }

    /// The number of certificates created under the category. A certificate
    /// counts under the category that it was created with, also after an
    /// update has given it another.
    pub fn get_category_stats(&self, category: &Vec<u8>) -> (count: u64)
        requires
            self.wf(),
        ensures
            count == self@.get_category_stats(category@),
    {
        self.index.get_category_count(category)
    }

    /// The version of the registry.
    pub fn contract_version(&self) -> (version: Vec<u8>)
        ensures
            version@ == self@.contract_version,
    {
        copy_bytes(&self.contract_version)
    }
}

} // verus!
