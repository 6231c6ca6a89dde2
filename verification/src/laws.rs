//! What holds of the registry whatever is done with it, stated over its
//! mathematical state and proved.

use vstd::prelude::*;

use crate::address::Address;
use crate::certificate::VerificationStatus;
use crate::certificate::CertificateView;
use crate::contract::{present_certificates, ContractView};
use crate::store::RecordsView;
use crate::error::ContractError;
use crate::rules::{default_category, default_metadata, valid_proof_id, valid_proof_text};

verus! {

/// One call of an operation that may change the registry, with its
/// arguments.
pub enum Operation {
    Submit {
        caller: Address,
        timestamp: u64,
        proof_text: Seq<u8>,
        proof_id: Seq<u8>,
        category: Option<Seq<u8>>,
        metadata: Option<Seq<u8>>,
        ai_tags: Option<Seq<Seq<u8>>>,
    },
    Update {
        caller: Address,
        proof_id: Seq<u8>,
        new_proof_text: Option<Seq<u8>>,
        new_category: Option<Seq<u8>>,
        new_metadata: Option<Seq<u8>>,
        new_ai_tags: Option<Seq<Seq<u8>>>,
    },
    Verify {
        caller: Address,
        verifier: Address,
        user: Address,
        proof_id: Seq<u8>,
        confidence_score: u32,
        verification_status: VerificationStatus,
        ai_analysis: Seq<u8>,
    },
}

/// The state after one call.
pub open spec fn apply(state: ContractView, operation: Operation) -> ContractView {
    match operation {
        Operation::Submit {
            caller,
            timestamp,
            proof_text,
            proof_id,
            category,
            metadata,
            ai_tags,
        } => state.certify_action(
            caller,
            timestamp,
            proof_text,
            proof_id,
            category,
            metadata,
            ai_tags,
        ),
        Operation::Update {
            caller,
            proof_id,
            new_proof_text,
            new_category,
            new_metadata,
            new_ai_tags,
        } => state.update_proof(
            caller,
            proof_id,
            new_proof_text,
            new_category,
            new_metadata,
            new_ai_tags,
        ),
        Operation::Verify {
            caller,
            verifier,
            user,
            proof_id,
            confidence_score,
            verification_status,
            ai_analysis,
        } => state.ai_verify(
            caller,
            verifier,
            user,
            proof_id,
            confidence_score,
            verification_status,
            ai_analysis,
        ),
    }
}

/// The state after a series of calls, made one after the other.
pub open spec fn apply_all(state: ContractView, operations: Seq<Operation>) -> ContractView
    decreases operations.len(),
{
    if operations.len() == 0 {
        state
    } else {
        apply(apply_all(state, operations.drop_last()), operations.last())
    }
}

/// Whether the call is a submission that the registry accepts in the state.
pub open spec fn is_accepted_submission(state: ContractView, operation: Operation) -> bool {
    match operation {
        Operation::Submit { caller, proof_text, proof_id, .. } => state.certify_check(
            caller,
            proof_text,
            proof_id,
        ) is Ok,
        _ => false,
    }
}

/// The number of submissions that the registry accepts in a series of
/// calls made from the state.
pub open spec fn accepted_submissions(state: ContractView, operations: Seq<Operation>) -> nat
    decreases operations.len(),
{
    if operations.len() == 0 {
        0
    } else {
        let earlier = operations.drop_last();
        let accepted: nat = if is_accepted_submission(
            apply_all(state, earlier),
            operations.last(),
        ) {
            1
        } else {
            0
        };
        accepted_submissions(state, earlier) + accepted
    }
}

/// No call removes a record: an identifier that an owner has used stays
/// used.
pub proof fn law_records_stay(
    state: ContractView,
    operation: Operation,
    owner: Address,
    proof_id: Seq<u8>,
)
    requires
        state.store.contains(owner, proof_id),
    ensures
        apply(state, operation).store.contains(owner, proof_id),
{
}

/// Whatever calls follow, an identifier that an owner has used stays used.
pub proof fn law_records_stay_for_good(
    state: ContractView,
    operations: Seq<Operation>,
    owner: Address,
    proof_id: Seq<u8>,
)
    requires
        state.store.contains(owner, proof_id),
    ensures
        apply_all(state, operations).store.contains(owner, proof_id),
    decreases operations.len(),
{
    if operations.len() > 0 {
        law_records_stay_for_good(state, operations.drop_last(), owner, proof_id);
        law_records_stay(
            apply_all(state, operations.drop_last()),
            operations.last(),
            owner,
            proof_id,
        );
    }
}

/// Once an owner's submission under an identifier is accepted,
/// every later submission by that owner under that identifier is rejected
/// and changes nothing, whatever was called in between and by whom. The
/// error is `DuplicateProofId` whenever the later text has an accepted
/// length; a text of another length is rejected for its length first.
pub proof fn law_second_submission_rejected(
    state: ContractView,
    owner: Address,
    proof_id: Seq<u8>,
    first_timestamp: u64,
    first_text: Seq<u8>,
    first_category: Option<Seq<u8>>,
    first_metadata: Option<Seq<u8>>,
    first_ai_tags: Option<Seq<Seq<u8>>>,
    between: Seq<Operation>,
    second_timestamp: u64,
    second_text: Seq<u8>,
    second_category: Option<Seq<u8>>,
    second_metadata: Option<Seq<u8>>,
    second_ai_tags: Option<Seq<Seq<u8>>>,
)
    requires
        state.certify_check(owner, first_text, proof_id) is Ok,
    ensures
        ({
            let later = apply_all(
                state.certify_action(
                    owner,
                    first_timestamp,
                    first_text,
                    proof_id,
                    first_category,
                    first_metadata,
                    first_ai_tags,
                ),
                between,
            );
            &&& later.certify_check(owner, second_text, proof_id) is Err
            &&& valid_proof_text(second_text) ==> later.certify_check(
                owner,
                second_text,
                proof_id,
            ) == Err::<(), ContractError>(ContractError::DuplicateProofId)
            &&& later.certify_action(
                owner,
                second_timestamp,
                second_text,
                proof_id,
                second_category,
                second_metadata,
                second_ai_tags,
            ) == later
        }),
{
    let first = state.certify_action(
        owner,
        first_timestamp,
        first_text,
        proof_id,
        first_category,
        first_metadata,
        first_ai_tags,
    );
    assert(first.store.contains(owner, proof_id));
    law_records_stay_for_good(first, between, owner, proof_id);
}

/// A submission by one owner does not change the verdict
/// on a submission by another owner, under the same identifier or any
/// other.
pub proof fn law_owners_are_isolated(
    state: ContractView,
    first: Address,
    timestamp: u64,
    proof_text: Seq<u8>,
    proof_id: Seq<u8>,
    category: Option<Seq<u8>>,
    metadata: Option<Seq<u8>>,
    ai_tags: Option<Seq<Seq<u8>>>,
    second: Address,
    other_text: Seq<u8>,
    other_id: Seq<u8>,
)
    requires
        first != second,
    ensures
        state.certify_action(
            first,
            timestamp,
            proof_text,
            proof_id,
            category,
            metadata,
            ai_tags,
        ).certify_check(second, other_text, other_id) == state.certify_check(
            second,
            other_text,
            other_id,
        ),
{
}

/// Two owners may use one identifier: where neither has used it, and text
/// and identifier have accepted lengths, the submissions of both are
/// accepted, in either order.
pub proof fn law_two_owners_one_identifier(
    state: ContractView,
    first: Address,
    first_timestamp: u64,
    first_text: Seq<u8>,
    second: Address,
    second_text: Seq<u8>,
    proof_id: Seq<u8>,
    category: Option<Seq<u8>>,
    metadata: Option<Seq<u8>>,
    ai_tags: Option<Seq<Seq<u8>>>,
)
    requires
        first != second,
        valid_proof_text(first_text),
        valid_proof_text(second_text),
        valid_proof_id(proof_id),
        !state.store.contains(first, proof_id),
        !state.store.contains(second, proof_id),
    ensures
        state.certify_check(first, first_text, proof_id) is Ok,
        state.certify_action(
            first,
            first_timestamp,
            first_text,
            proof_id,
            category,
            metadata,
            ai_tags,
        ).certify_check(second, second_text, proof_id) is Ok,
{
}

/// A record that stands for a certificate is not updated for
/// a caller who did not create it; the verdict is `Unauthorized`.
pub proof fn law_update_needs_creator(
    state: ContractView,
    caller: Address,
    proof_id: Seq<u8>,
    new_proof_text: Option<Seq<u8>>,
    new_category: Option<Seq<u8>>,
    new_metadata: Option<Seq<u8>>,
    new_ai_tags: Option<Seq<Seq<u8>>>,
)
    requires
        state.get_proof(caller, proof_id).is_present(),
        state.get_proof(caller, proof_id).created_by != caller,
    ensures
        state.update_check(caller, proof_id) == Err::<(), ContractError>(
            ContractError::Unauthorized,
        ),
        state.update_proof(
            caller,
            proof_id,
            new_proof_text,
            new_category,
            new_metadata,
            new_ai_tags,
        ) == state,
{
}

/// Only the verifier verifies: a verification called by anyone else is
/// rejected as `Unauthorized`, whether or not the record exists, and changes
/// nothing.
pub proof fn law_verify_needs_verifier(
    state: ContractView,
    caller: Address,
    verifier: Address,
    user: Address,
    proof_id: Seq<u8>,
    confidence_score: u32,
    verification_status: VerificationStatus,
    ai_analysis: Seq<u8>,
)
    requires
        caller != verifier,
    ensures
        state.verify_check(caller, verifier, user, proof_id) == Err::<(), ContractError>(
            ContractError::Unauthorized,
        ),
        state.ai_verify(
            caller,
            verifier,
            user,
            proof_id,
            confidence_score,
            verification_status,
            ai_analysis,
        ) == state,
{
}

/// Score and status of a stored record change by a verification alone, and
/// its text, category, metadata and tags by an update alone.
pub proof fn law_fields_have_one_writer(
    state: ContractView,
    operation: Operation,
    owner: Address,
    proof_id: Seq<u8>,
)
    requires
        state.store.contains(owner, proof_id),
    ensures
        ({
            let before = state.get_proof(owner, proof_id);
            let after = apply(state, operation).get_proof(owner, proof_id);
            &&& !(operation is Verify) ==> after.confidence_score == before.confidence_score
                && after.verification_status == before.verification_status
            &&& !(operation is Update) ==> after.proof_text == before.proof_text
                && after.category == before.category && after.metadata == before.metadata
                && after.ai_tags == before.ai_tags
        }),
{
}

/// Analyses are written by verifications alone, and an accepted
/// verification writes the one analysis of the record that it verifies.
pub proof fn law_analyses_have_one_writer(
    state: ContractView,
    operation: Operation,
    owner: Address,
    proof_id: Seq<u8>,
)
    ensures
        !(operation is Verify) ==> apply(state, operation).store.analyses
            == state.store.analyses,
        operation matches Operation::Verify { user, proof_id: verified_id, .. } ==> (user
            != owner || verified_id != proof_id) ==> apply(state, operation).get_ai_analysis(
            owner,
            proof_id,
        ) == state.get_ai_analysis(owner, proof_id),
{
}

/// An update, accepted or not, leaves every record but the caller's own
/// record under the identifier as it is, and with it the lists of
/// identifiers, the analyses and the counters.
pub proof fn law_update_touches_one_record(
    state: ContractView,
    caller: Address,
    proof_id: Seq<u8>,
    new_proof_text: Option<Seq<u8>>,
    new_category: Option<Seq<u8>>,
    new_metadata: Option<Seq<u8>>,
    new_ai_tags: Option<Seq<Seq<u8>>>,
    owner: Address,
    other_id: Seq<u8>,
)
    requires
        owner != caller || other_id != proof_id,
    ensures
        ({
            let after = state.update_proof(
                caller,
                proof_id,
                new_proof_text,
                new_category,
                new_metadata,
                new_ai_tags,
            );
            &&& after.get_proof(owner, other_id) == state.get_proof(owner, other_id)
            &&& after.store.owner_index == state.store.owner_index
            &&& after.store.analyses == state.store.analyses
            &&& after.index == state.index
        }),
{
}

/// An accepted submission that names no category, no
/// metadata and no tags stores a certificate with the category `GENERAL`,
/// the metadata `{}` and no tags, pending, with the score 100.
pub proof fn law_defaults_are_stored(
    state: ContractView,
    caller: Address,
    timestamp: u64,
    proof_text: Seq<u8>,
    proof_id: Seq<u8>,
)
    requires
        state.certify_check(caller, proof_text, proof_id) is Ok,
    ensures
        ({
            let stored = state.certify_action(
                caller,
                timestamp,
                proof_text,
                proof_id,
                None,
                None,
                None,
            ).get_proof(caller, proof_id);
            &&& stored.category == default_category()
            &&& stored.metadata == default_metadata()
            &&& stored.ai_tags == Seq::<Seq<u8>>::empty()
            &&& stored.confidence_score == 100
            &&& stored.verification_status == VerificationStatus::Pending
            &&& stored.proof_text == proof_text
            &&& stored.proof_id == proof_id
            &&& stored.created_by == caller
            &&& stored.timestamp == timestamp
        }),
{
}

/// One call raises the total by one where it is an accepted submission, and
/// leaves it where it is otherwise.
pub proof fn law_total_moves_with_submissions(state: ContractView, operation: Operation)
    ensures
        apply(state, operation).get_total_proofs() == state.get_total_proofs() + (
        if is_accepted_submission(state, operation) {
            1nat
        } else {
            0nat
        }),
{
}

/// After any series of calls the total has grown by
/// the number of submissions that were accepted, whatever else was called
/// and however many submissions were rejected.
pub proof fn law_total_counts_accepted_submissions(
    state: ContractView,
    operations: Seq<Operation>,
)
    ensures
        apply_all(state, operations).get_total_proofs() == state.get_total_proofs()
            + accepted_submissions(state, operations),
    decreases operations.len(),
{
    if operations.len() > 0 {
        law_total_counts_accepted_submissions(state, operations.drop_last());
        law_total_moves_with_submissions(
            apply_all(state, operations.drop_last()),
            operations.last(),
        );
    }
}

/// In a registry that starts empty the total is the number of accepted
/// submissions.
pub proof fn law_total_from_init(operations: Seq<Operation>)
    ensures
        apply_all(ContractView::init(), operations).get_total_proofs() == accepted_submissions(
            ContractView::init(),
            operations,
        ),
{
    law_total_counts_accepted_submissions(ContractView::init(), operations);
}

/// A new registry is in order.
pub proof fn law_new_registry_in_order()
    ensures
        ContractView::init().in_order(),
{
    let state = ContractView::init();
    assert(state.consistent());
    assert forall|owner: Address| #[trigger] state.store.list_owned(owner).no_duplicates() by {
        assert(state.store.list_owned(owner) =~= Seq::<Seq<u8>>::empty());
    }
}

/// Every call keeps a registry in order: afterwards the total is still the
/// number of records, no category counts more than the total, every record
/// is stored under its creator and its own identifier, and each owner's list
/// holds the owner's identifiers, each once.
pub proof fn law_order_is_kept(state: ContractView, operation: Operation)
    requires
        state.in_order(),
    ensures
        apply(state, operation).in_order(),
{
    let after = apply(state, operation);
    match operation {
        Operation::Submit { caller, proof_text, proof_id, .. } => {
            if state.certify_check(caller, proof_text, proof_id) is Ok {
                assert(after.store.records.dom() =~= state.store.records.dom().insert(
                    (caller, proof_id),
                ));
                assert forall|label: Seq<u8>| #[trigger]
                    after.index.get_category_count(label) <= after.index.total by {
                    assert(state.index.get_category_count(label) <= state.index.total);
                }
                assert forall|owner: Address, id: Seq<u8>| #[trigger]
                    after.store.contains(owner, id) implies {
                    &&& after.store.get(owner, id).created_by == owner
                    &&& after.store.get(owner, id).proof_id == id
                    &&& valid_proof_id(id)
                } by {
                    if owner != caller || id != proof_id {
                        assert(state.store.contains(owner, id));
                    }
                }
                let before_list = state.store.list_owned(caller);
                assert(!state.store.contains(caller, proof_id));
                assert(!before_list.contains(proof_id));
                assert(after.store.list_owned(caller) == before_list.push(proof_id));
                assert forall|owner: Address, id: Seq<u8>|
                    #![trigger after.store.contains(owner, id)]
                    #![trigger after.store.list_owned(owner).contains(id)]
                    after.store.contains(owner, id) <==> after.store.list_owned(owner).contains(
                        id,
                    ) by {
                    assert(state.store.contains(owner, id) <==> state.store.list_owned(
                        owner,
                    ).contains(id));
                    if owner == caller {
                        vstd::seq_lib::lemma_seq_contains_after_push(before_list, proof_id, id);
                    } else {
                        assert(after.store.list_owned(owner) == state.store.list_owned(owner));
                    }
                }
                assert forall|owner: Address| #[trigger]
                    after.store.list_owned(owner).no_duplicates() by {
                    assert(state.store.list_owned(owner).no_duplicates());
                    if owner == caller {
                        let list = before_list.push(proof_id);
                        assert forall|i: int, j: int|
                            0 <= i < list.len() && 0 <= j < list.len() && i != j implies list[i]
                            != list[j] by {
                            if i < before_list.len() && j < before_list.len() {
                            } else if i < before_list.len() {
                                assert(before_list.contains(before_list[i]));
                            } else {
                                assert(before_list.contains(before_list[j]));
                            }
                        }
                    } else {
                        assert(after.store.list_owned(owner) == state.store.list_owned(owner));
                    }
                }
            }
        },
        Operation::Update { caller, proof_id, .. } => {
            if state.update_check(caller, proof_id) is Ok {
                assert(state.store.contains(caller, proof_id));
                assert(after.store.records.dom() =~= state.store.records.dom());
                assert forall|owner: Address, id: Seq<u8>| #[trigger]
                    after.store.contains(owner, id) implies {
                    &&& after.store.get(owner, id).created_by == owner
                    &&& after.store.get(owner, id).proof_id == id
                    &&& valid_proof_id(id)
                } by {
                    assert(state.store.contains(owner, id));
                }
                assert forall|owner: Address, id: Seq<u8>|
                    #![trigger after.store.contains(owner, id)]
                    #![trigger after.store.list_owned(owner).contains(id)]
                    after.store.contains(owner, id) <==> after.store.list_owned(owner).contains(
                        id,
                    ) by {
                    assert(state.store.contains(owner, id) <==> state.store.list_owned(
                        owner,
                    ).contains(id));
                }
                assert forall|owner: Address| #[trigger]
                    after.store.list_owned(owner).no_duplicates() by {
                    assert(state.store.list_owned(owner).no_duplicates());
                }
            }
        },
        Operation::Verify { caller, verifier, user, proof_id, .. } => {
            if state.verify_check(caller, verifier, user, proof_id) is Ok {
                assert(state.store.contains(user, proof_id));
                assert(after.store.records.dom() =~= state.store.records.dom());
                assert forall|owner: Address, id: Seq<u8>| #[trigger]
                    after.store.contains(owner, id) implies {
                    &&& after.store.get(owner, id).created_by == owner
                    &&& after.store.get(owner, id).proof_id == id
                    &&& valid_proof_id(id)
                } by {
                    assert(state.store.contains(owner, id));
                }
                assert forall|owner: Address, id: Seq<u8>|
                    #![trigger after.store.contains(owner, id)]
                    #![trigger after.store.list_owned(owner).contains(id)]
                    after.store.contains(owner, id) <==> after.store.list_owned(owner).contains(
                        id,
                    ) by {
                    assert(state.store.contains(owner, id) <==> state.store.list_owned(
                        owner,
                    ).contains(id));
                }
                assert forall|owner: Address| #[trigger]
                    after.store.list_owned(owner).no_duplicates() by {
                    assert(state.store.list_owned(owner).no_duplicates());
                }
            }
        },
    }
}

/// Whatever is called on a new registry, and in whatever order, the
/// registry stays in order.
pub proof fn law_order_holds_throughout(operations: Seq<Operation>)
    ensures
        apply_all(ContractView::init(), operations).in_order(),
    decreases operations.len(),
{
    if operations.len() == 0 {
        law_new_registry_in_order();
    } else {
        law_order_holds_throughout(operations.drop_last());
        law_order_is_kept(
            apply_all(ContractView::init(), operations.drop_last()),
            operations.last(),
        );
    }
}

/// In a registry in order an update is accepted or finds no certificate:
/// the caller's records are the caller's own, so the creator's check cannot
/// fail there.
pub proof fn law_update_reaches_own_records_only(
    state: ContractView,
    caller: Address,
    proof_id: Seq<u8>,
)
    requires
        state.in_order(),
    ensures
        state.update_check(caller, proof_id) is Ok || state.update_check(caller, proof_id)
            == Err::<(), ContractError>(ContractError::NotFound),
{
    if state.store.contains(caller, proof_id) {
        assert(state.store.get(caller, proof_id).created_by == caller);
    }
}

/// Reading is repeatable: the state alone decides what a read returns, so
/// two reads of one owner and identifier from one state return the same
/// record.
pub proof fn law_reads_agree(
    state: ContractView,
    user: Address,
    proof_id: Seq<u8>,
    first: CertificateView,
    second: CertificateView,
)
    requires
        first == state.get_proof(user, proof_id),
        second == state.get_proof(user, proof_id),
    ensures
        first == second,
{
}

/// The records listed for an owner under some identifiers are the records
/// stored under these identifiers that stand for a certificate: each of
/// those is listed, and nothing else is.
pub proof fn law_listing_is_exact(
    store: RecordsView,
    owner: Address,
    proof_ids: Seq<Seq<u8>>,
    certificate: CertificateView,
)
    ensures
        present_certificates(store, owner, proof_ids).contains(certificate) <==> (
        certificate.is_present() && exists|i: int|
            0 <= i < proof_ids.len() && #[trigger] store.get(owner, proof_ids[i]) == certificate),
    decreases proof_ids.len(),
{
    if proof_ids.len() > 0 {
        let front = proof_ids.drop_last();
        let last = store.get(owner, proof_ids.last());
        let earlier = present_certificates(store, owner, front);
        law_listing_is_exact(store, owner, front, certificate);
        if last.is_present() {
            vstd::seq_lib::lemma_seq_contains_after_push(earlier, last, certificate);
        }
        if present_certificates(store, owner, proof_ids).contains(certificate) {
            if earlier.contains(certificate) {
                let i = choose|i: int|
                    0 <= i < front.len() && #[trigger] store.get(owner, front[i]) == certificate;
                assert(store.get(owner, proof_ids[i]) == certificate);
            } else {
                assert(store.get(owner, proof_ids[proof_ids.len() - 1]) == certificate);
            }
        }
        if certificate.is_present() && exists|i: int|
            0 <= i < proof_ids.len() && #[trigger] store.get(owner, proof_ids[i]) == certificate {
            let i = choose|i: int|
                0 <= i < proof_ids.len() && #[trigger] store.get(owner, proof_ids[i])
                    == certificate;
            if i < proof_ids.len() - 1 {
                assert(store.get(owner, front[i]) == certificate);
            }
        }
    }
}

/// In a registry in order, the certificates listed for a user are the
/// user's certificates: every record of the user that stands for a
/// certificate is listed.
pub proof fn law_user_proofs_are_complete(state: ContractView, user: Address, proof_id: Seq<u8>)
    requires
        state.in_order(),
        state.get_proof(user, proof_id).is_present(),
    ensures
        state.get_user_proofs(user).contains(state.get_proof(user, proof_id)),
{
    assert(state.store.contains(user, proof_id));
    let list = state.store.list_owned(user);
    assert(list.contains(proof_id));
    let i = choose|i: int| 0 <= i < list.len() && list[i] == proof_id;
    assert(state.store.get(user, list[i]) == state.get_proof(user, proof_id));
    law_listing_is_exact(state.store, user, list, state.get_proof(user, proof_id));
}

/// Who created a certificate, when, and under which identifier never
/// changes: no call alters these fields of a record that is stored.
pub proof fn law_creation_is_fixed(
    state: ContractView,
    operation: Operation,
    owner: Address,
    proof_id: Seq<u8>,
)
    requires
        state.store.contains(owner, proof_id),
    ensures
        apply(state, operation).get_proof(owner, proof_id).created_by == state.get_proof(
            owner,
            proof_id,
        ).created_by,
        apply(state, operation).get_proof(owner, proof_id).timestamp == state.get_proof(
            owner,
            proof_id,
        ).timestamp,
        apply(state, operation).get_proof(owner, proof_id).proof_id == state.get_proof(
            owner,
            proof_id,
        ).proof_id,
{
}

/// Only accepted submissions move the counters and the lists of
/// identifiers, and they only add: the count of a category never falls,
/// and an owner's list only grows at its end.
pub proof fn law_index_only_grows(
    state: ContractView,
    operation: Operation,
    owner: Address,
    category: Seq<u8>,
)
    ensures
        apply(state, operation).get_category_stats(category) >= state.get_category_stats(
            category,
        ),
        state.store.list_owned(owner).is_prefix_of(
            apply(state, operation).store.list_owned(owner),
        ),
        !is_accepted_submission(state, operation) ==> apply(state, operation).index
            == state.index && apply(state, operation).store.owner_index
            == state.store.owner_index,
{
}

} // verus!
