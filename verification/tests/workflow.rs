use mvx_proofmind::address::Address;
use mvx_proofmind::certificate::{CertificateData, VerificationStatus};
use mvx_proofmind::contract::MvxProofMindContract;
use mvx_proofmind::error::ContractError;
use mvx_proofmind::events::ContractEvent;

fn account(tag: u8) -> Address {
    Address::new([tag; 32])
}

fn text_of(len: usize) -> Vec<u8> {
    vec![b'a'; len]
}

fn submit(
    contract: &mut MvxProofMindContract,
    caller: &Address,
    text: &[u8],
    id: &[u8],
) -> Result<ContractEvent, ContractError> {
    contract.certify_action(caller, 1_700_000_000, text.to_vec(), id.to_vec(), None, None, None)
}

#[test]
fn test_certificate_creation() {
    let alice = account(1);
    let mut contract = MvxProofMindContract::init();
    let outcome = contract.certify_action(
        &alice,
        1_700_000_123,
        b"I finished the course on 2024-05-01".to_vec(),
        b"course-42".to_vec(),
        Some(b"EDUCATION".to_vec()),
        Some(b"{\"grade\":\"A\"}".to_vec()),
        Some(vec![b"course".to_vec(), b"2024".to_vec()]),
    );
    assert_eq!(
        outcome,
        Ok(ContractEvent::CertificateCreated {
            user: alice,
            proof_id: b"course-42".to_vec(),
            proof_text: b"I finished the course on 2024-05-01".to_vec(),
            category: b"EDUCATION".to_vec(),
            metadata: b"{\"grade\":\"A\"}".to_vec(),
            timestamp: 1_700_000_123,
        })
    );
    let stored = contract.get_proof(&alice, &b"course-42".to_vec());
    assert_eq!(
        stored,
        CertificateData {
            proof_text: b"I finished the course on 2024-05-01".to_vec(),
            timestamp: 1_700_000_123,
            proof_id: b"course-42".to_vec(),
            category: b"EDUCATION".to_vec(),
            metadata: b"{\"grade\":\"A\"}".to_vec(),
            ai_tags: vec![b"course".to_vec(), b"2024".to_vec()],
            confidence_score: 100,
            verification_status: VerificationStatus::Pending,
            created_by: alice,
        }
    );
    assert_eq!(contract.get_total_proofs(), 1);
    assert_eq!(contract.get_category_stats(&b"EDUCATION".to_vec()), 1);
    assert_eq!(contract.get_category_stats(&b"GENERAL".to_vec()), 0);
    assert_eq!(contract.get_user_proofs(&alice), vec![stored]);
}

#[test]
fn test_ai_verification() {
    let alice = account(1);
    let verifier = account(9);
    let mut contract = MvxProofMindContract::init();
    assert!(submit(&mut contract, &alice, b"This is a valid ten-plus char claim", b"proof-001").is_ok());
    let outcome = contract.ai_verify(
        &verifier,
        &verifier,
        &alice,
        b"proof-001".to_vec(),
        87,
        VerificationStatus::Verified,
        b"analysis-blob".to_vec(),
    );
    assert_eq!(
        outcome,
        Ok(ContractEvent::AiVerification {
            user: alice,
            proof_id: b"proof-001".to_vec(),
            verification_status: VerificationStatus::Verified,
            confidence_score: 87,
            ai_analysis: b"analysis-blob".to_vec(),
        })
    );
    let stored = contract.get_proof(&alice, &b"proof-001".to_vec());
    assert_eq!(stored.confidence_score, 87);
    assert_eq!(stored.verification_status, VerificationStatus::Verified);
    assert_eq!(stored.proof_text, b"This is a valid ten-plus char claim".to_vec());
    assert_eq!(stored.created_by, alice);
    assert_eq!(stored.timestamp, 1_700_000_000);
    assert_eq!(contract.get_ai_analysis(&alice, &b"proof-001".to_vec()), b"analysis-blob".to_vec());
}

#[test]
fn end_to_end_scenario() {
    let a = account(0xA);
    let verifier = account(0xF);
    let id = b"proof-001".to_vec();
    let mut contract = MvxProofMindContract::init();
    assert!(submit(&mut contract, &a, b"This is a valid ten-plus char claim", b"proof-001").is_ok());
    assert_eq!(contract.get_total_proofs(), 1);
    let first = contract.get_proof(&a, &id);
    assert_eq!(first.verification_status, VerificationStatus::Pending);
    assert_eq!(first.confidence_score, 100);
    assert!(contract
        .ai_verify(&verifier, &verifier, &a, id.clone(), 87, VerificationStatus::Verified, b"analysis-blob".to_vec())
        .is_ok());
    let second = contract.get_proof(&a, &id);
    assert_eq!(second.confidence_score, 87);
    assert_eq!(second.verification_status, VerificationStatus::Verified);
    assert_eq!(contract.get_ai_analysis(&a, &id), b"analysis-blob".to_vec());
    assert_eq!(contract.get_total_proofs(), 1);
}

#[test]
fn new_registry_is_empty() {
    let contract = MvxProofMindContract::init();
    assert_eq!(contract.get_total_proofs(), 0);
    assert_eq!(contract.contract_version(), b"1.0.0".to_vec());
    assert_eq!(contract.get_category_stats(&b"GENERAL".to_vec()), 0);
    assert_eq!(contract.get_user_proofs(&account(1)), Vec::<CertificateData>::new());
    assert_eq!(contract.get_proof(&account(1), &b"proof-001".to_vec()), CertificateData::empty());
    assert_eq!(contract.get_ai_analysis(&account(1), &b"proof-001".to_vec()), Vec::<u8>::new());
}

#[test]
fn second_submission_is_a_duplicate() {
    let alice = account(1);
    let bob = account(2);
    let mut contract = MvxProofMindContract::init();
    assert!(submit(&mut contract, &alice, b"the first claim text", b"proof-001").is_ok());
    assert_eq!(
        submit(&mut contract, &alice, b"another claim text", b"proof-001"),
        Err(ContractError::DuplicateProofId)
    );
    assert!(submit(&mut contract, &bob, b"bob's own claim text", b"proof-001").is_ok());
    assert!(contract
        .update_proof(&bob, 5, b"proof-001".to_vec(), Some(b"bob changed his claim".to_vec()), None, None, None)
        .is_ok());
    assert!(contract
        .update_proof(&alice, 6, b"proof-001".to_vec(), None, Some(b"OTHER".to_vec()), None, None)
        .is_ok());
    assert_eq!(
        submit(&mut contract, &alice, b"yet another claim text", b"proof-001"),
        Err(ContractError::DuplicateProofId)
    );
    assert_eq!(contract.get_proof(&alice, &b"proof-001".to_vec()).proof_text, b"the first claim text".to_vec());
    assert_eq!(contract.get_total_proofs(), 2);
    assert_eq!(contract.get_user_proofs(&alice).len(), 1);
}

#[test]
fn proof_text_length_boundaries() {
    let alice = account(1);
    let mut contract = MvxProofMindContract::init();
    assert_eq!(submit(&mut contract, &alice, &text_of(9), b"proof-009"), Err(ContractError::InvalidProofText));
    assert!(submit(&mut contract, &alice, &text_of(10), b"proof-010").is_ok());
    assert!(submit(&mut contract, &alice, &text_of(1000), b"proof-1000").is_ok());
    assert_eq!(submit(&mut contract, &alice, &text_of(1001), b"proof-1001"), Err(ContractError::InvalidProofText));
    assert_eq!(submit(&mut contract, &alice, &text_of(0), b"proof-000"), Err(ContractError::InvalidProofText));
    assert_eq!(contract.get_total_proofs(), 2);
    assert!(!contract.get_proof(&alice, &b"proof-009".to_vec()).is_present());
    assert!(contract.get_proof(&alice, &b"proof-010".to_vec()).is_present());
}

#[test]
fn proof_id_length_boundaries() {
    let alice = account(1);
    let text = b"a claim of valid length";
    let mut contract = MvxProofMindContract::init();
    assert_eq!(submit(&mut contract, &alice, text, &vec![b'i'; 4]), Err(ContractError::InvalidProofId));
    assert!(submit(&mut contract, &alice, text, &vec![b'i'; 5]).is_ok());
    assert!(submit(&mut contract, &alice, text, &vec![b'i'; 100]).is_ok());
    assert_eq!(submit(&mut contract, &alice, text, &vec![b'i'; 101]), Err(ContractError::InvalidProofId));
    assert_eq!(submit(&mut contract, &alice, text, b""), Err(ContractError::InvalidProofId));
    assert_eq!(contract.get_total_proofs(), 2);
}

#[test]
fn first_failed_check_wins() {
    let alice = account(1);
    let mut contract = MvxProofMindContract::init();
    assert_eq!(submit(&mut contract, &alice, b"short", b"id"), Err(ContractError::InvalidProofText));
    assert!(submit(&mut contract, &alice, b"long enough text", b"proof-001").is_ok());
    assert_eq!(submit(&mut contract, &alice, b"short", b"proof-001"), Err(ContractError::InvalidProofText));
    assert_eq!(submit(&mut contract, &alice, b"long enough text", b"id"), Err(ContractError::InvalidProofId));
}

#[test]
fn omitted_fields_get_defaults() {
    let alice = account(1);
    let mut contract = MvxProofMindContract::init();
    let outcome = submit(&mut contract, &alice, b"a claim of valid length", b"proof-001");
    assert_eq!(
        outcome,
        Ok(ContractEvent::CertificateCreated {
            user: alice,
            proof_id: b"proof-001".to_vec(),
            proof_text: b"a claim of valid length".to_vec(),
            category: b"GENERAL".to_vec(),
            metadata: b"{}".to_vec(),
            timestamp: 1_700_000_000,
        })
    );
    let stored = contract.get_proof(&alice, &b"proof-001".to_vec());
    assert_eq!(stored.category, b"GENERAL".to_vec());
    assert_eq!(stored.metadata, b"{}".to_vec());
    assert_eq!(stored.ai_tags, Vec::<Vec<u8>>::new());
    assert_eq!(contract.get_category_stats(&b"GENERAL".to_vec()), 1);
}

#[test]
fn total_counts_accepted_submissions_only() {
    let alice = account(1);
    let bob = account(2);
    let verifier = account(9);
    let mut contract = MvxProofMindContract::init();
    let ids: [&[u8]; 4] = [b"proof-001", b"proof-002", b"proof-003", b"proof-004"];
    for (n, id) in ids.iter().enumerate() {
        assert!(submit(&mut contract, &alice, b"a claim of valid length", id).is_ok());
        assert_eq!(contract.get_total_proofs(), n as u64 + 1);
        assert!(submit(&mut contract, &alice, b"a claim of valid length", id).is_err());
        assert!(submit(&mut contract, &bob, b"tiny", id).is_err());
        assert!(contract
            .update_proof(&alice, 3, id.to_vec(), None, Some(b"MOVED".to_vec()), None, None)
            .is_ok());
        assert!(contract
            .ai_verify(&verifier, &verifier, &alice, id.to_vec(), 50, VerificationStatus::Flagged, Vec::new())
            .is_ok());
        assert!(contract
            .ai_verify(&bob, &verifier, &alice, id.to_vec(), 1, VerificationStatus::Rejected, Vec::new())
            .is_err());
        assert_eq!(contract.get_total_proofs(), n as u64 + 1);
    }
    assert_eq!(contract.get_total_proofs(), 4);
    assert_eq!(contract.get_category_stats(&b"GENERAL".to_vec()), 4);
    assert_eq!(contract.get_category_stats(&b"MOVED".to_vec()), 0);
}

#[test]
fn reading_twice_gives_the_same_record() {
    let alice = account(1);
    let mut contract = MvxProofMindContract::init();
    assert!(submit(&mut contract, &alice, b"a claim of valid length", b"proof-001").is_ok());
    let id = b"proof-001".to_vec();
    assert_eq!(contract.get_proof(&alice, &id), contract.get_proof(&alice, &id));
    assert_eq!(contract.get_user_proofs(&alice), contract.get_user_proofs(&alice));
    let missing = b"proof-404".to_vec();
    assert_eq!(contract.get_proof(&alice, &missing), contract.get_proof(&alice, &missing));
    assert_eq!(contract.get_total_proofs(), 1);
}

#[test]
fn owners_do_not_share_identifiers() {
    let a = account(0xA);
    let b = account(0xB);
    let mut contract = MvxProofMindContract::init();
    assert!(submit(&mut contract, &a, b"the claim that A makes", b"x-001").is_ok());
    assert!(submit(&mut contract, &b, b"the claim that B makes", b"x-001").is_ok());
    assert_eq!(contract.get_proof(&a, &b"x-001".to_vec()).proof_text, b"the claim that A makes".to_vec());
    assert_eq!(contract.get_proof(&b, &b"x-001".to_vec()).proof_text, b"the claim that B makes".to_vec());
    assert_eq!(contract.get_proof(&a, &b"x-001".to_vec()).created_by, a);
    assert_eq!(contract.get_proof(&b, &b"x-001".to_vec()).created_by, b);
    assert_eq!(contract.get_total_proofs(), 2);
}

#[test]
fn one_byte_identifier_is_too_short_for_everyone() {
    let a = account(0xA);
    let b = account(0xB);
    let mut contract = MvxProofMindContract::init();
    assert_eq!(submit(&mut contract, &a, b"the claim that A makes", b"x"), Err(ContractError::InvalidProofId));
    assert_eq!(submit(&mut contract, &b, b"the claim that B makes", b"x"), Err(ContractError::InvalidProofId));
    assert_eq!(contract.get_total_proofs(), 0);
}

#[test]
fn update_replaces_only_what_is_given() {
    let alice = account(1);
    let id = b"proof-001".to_vec();
    let mut contract = MvxProofMindContract::init();
    assert!(contract
        .certify_action(
            &alice,
            10,
            b"the first wording".to_vec(),
            id.clone(),
            Some(b"LEGAL".to_vec()),
            Some(b"{\"k\":1}".to_vec()),
            Some(vec![b"one".to_vec()]),
        )
        .is_ok());
    let outcome = contract.update_proof(&alice, 20, id.clone(), None, Some(b"ART".to_vec()), None, None);
    assert_eq!(
        outcome,
        Ok(ContractEvent::CertificateUpdated { user: alice, proof_id: id.clone(), timestamp: 20 })
    );
    let stored = contract.get_proof(&alice, &id);
    assert_eq!(stored.proof_text, b"the first wording".to_vec());
    assert_eq!(stored.category, b"ART".to_vec());
    assert_eq!(stored.metadata, b"{\"k\":1}".to_vec());
    assert_eq!(stored.ai_tags, vec![b"one".to_vec()]);
    assert_eq!(stored.timestamp, 10);
    assert_eq!(stored.created_by, alice);
    assert_eq!(stored.confidence_score, 100);
    assert_eq!(contract.get_category_stats(&b"LEGAL".to_vec()), 1);
    assert_eq!(contract.get_category_stats(&b"ART".to_vec()), 0);

    assert!(contract
        .update_proof(
            &alice,
            30,
            id.clone(),
            Some(b"new".to_vec()),
            None,
            Some(Vec::new()),
            Some(vec![b"two".to_vec(), b"three".to_vec()]),
        )
        .is_ok());
    let stored = contract.get_proof(&alice, &id);
    assert_eq!(stored.proof_text, b"new".to_vec());
    assert_eq!(stored.category, b"ART".to_vec());
    assert_eq!(stored.metadata, Vec::<u8>::new());
    assert_eq!(stored.ai_tags, vec![b"two".to_vec(), b"three".to_vec()]);
}

#[test]
fn update_of_a_missing_record_is_not_found() {
    let alice = account(1);
    let mut contract = MvxProofMindContract::init();
    assert_eq!(
        contract.update_proof(&alice, 1, b"proof-404".to_vec(), Some(b"text".to_vec()), None, None, None),
        Err(ContractError::NotFound)
    );
    assert_eq!(contract.get_proof(&alice, &b"proof-404".to_vec()), CertificateData::empty());
    assert_eq!(contract.get_total_proofs(), 0);
}

#[test]
fn update_by_another_identity_leaves_the_record_unchanged() {
    let alice = account(1);
    let mallory = account(66);
    let id = b"proof-001".to_vec();
    let mut contract = MvxProofMindContract::init();
    assert!(submit(&mut contract, &alice, b"the claim of alice", b"proof-001").is_ok());
    let before = contract.get_proof(&alice, &id);
    let outcome = contract.update_proof(
        &mallory,
        99,
        id.clone(),
        Some(b"the claim of mallory".to_vec()),
        Some(b"STOLEN".to_vec()),
        Some(b"{}".to_vec()),
        Some(Vec::new()),
    );
    assert!(outcome.is_err());
    assert_eq!(outcome, Err(ContractError::NotFound));
    assert_eq!(contract.get_proof(&alice, &id), before);
    assert_eq!(contract.get_user_proofs(&alice), vec![before]);
    assert_eq!(contract.get_proof(&mallory, &id), CertificateData::empty());
}

#[test]
fn emptied_certificate_reads_as_absent_but_keeps_its_identifier() {
    let alice = account(1);
    let verifier = account(9);
    let id = b"proof-001".to_vec();
    let mut contract = MvxProofMindContract::init();
    assert!(submit(&mut contract, &alice, b"a claim of valid length", b"proof-001").is_ok());
    assert!(submit(&mut contract, &alice, b"a second valid claim", b"proof-002").is_ok());
    assert!(contract.update_proof(&alice, 2, id.clone(), Some(Vec::new()), None, None, None).is_ok());
    assert!(!contract.get_proof(&alice, &id).is_present());
    assert_eq!(
        contract.update_proof(&alice, 3, id.clone(), Some(b"back again".to_vec()), None, None, None),
        Err(ContractError::NotFound)
    );
    assert_eq!(
        contract.ai_verify(&verifier, &verifier, &alice, id.clone(), 1, VerificationStatus::Rejected, Vec::new()),
        Err(ContractError::NotFound)
    );
    assert_eq!(
        submit(&mut contract, &alice, b"a claim of valid length", b"proof-001"),
        Err(ContractError::DuplicateProofId)
    );
    let listed = contract.get_user_proofs(&alice);
    assert_eq!(listed.len(), 1);
    assert_eq!(listed[0].proof_id, b"proof-002".to_vec());
    assert_eq!(contract.get_total_proofs(), 2);
}

#[test]
fn only_the_verifier_verifies() {
    let alice = account(1);
    let verifier = account(9);
    let id = b"proof-001".to_vec();
    let mut contract = MvxProofMindContract::init();
    assert!(submit(&mut contract, &alice, b"a claim of valid length", b"proof-001").is_ok());
    let before = contract.get_proof(&alice, &id);
    assert_eq!(
        contract.ai_verify(&alice, &verifier, &alice, id.clone(), 1, VerificationStatus::Rejected, b"x".to_vec()),
        Err(ContractError::Unauthorized)
    );
    assert_eq!(contract.get_proof(&alice, &id), before);
    assert_eq!(contract.get_ai_analysis(&alice, &id), Vec::<u8>::new());
    assert_eq!(
        contract.ai_verify(&alice, &verifier, &alice, b"proof-404".to_vec(), 1, VerificationStatus::Rejected, Vec::new()),
        Err(ContractError::Unauthorized)
    );
    assert_eq!(
        contract.ai_verify(&verifier, &verifier, &alice, b"proof-404".to_vec(), 1, VerificationStatus::Rejected, Vec::new()),
        Err(ContractError::NotFound)
    );
    assert_eq!(contract.get_ai_analysis(&alice, &b"proof-404".to_vec()), Vec::<u8>::new());
}

#[test]
fn score_is_stored_as_given() {
    let alice = account(1);
    let verifier = account(9);
    let id = b"proof-001".to_vec();
    let mut contract = MvxProofMindContract::init();
    assert!(submit(&mut contract, &alice, b"a claim of valid length", b"proof-001").is_ok());
    assert!(contract
        .ai_verify(&verifier, &verifier, &alice, id.clone(), 4_000_000_000, VerificationStatus::Flagged, b"first".to_vec())
        .is_ok());
    assert_eq!(contract.get_proof(&alice, &id).confidence_score, 4_000_000_000);
    assert_eq!(contract.get_proof(&alice, &id).verification_status, VerificationStatus::Flagged);
    assert!(contract
        .ai_verify(&verifier, &verifier, &alice, id.clone(), 0, VerificationStatus::Rejected, b"second".to_vec())
        .is_ok());
    assert_eq!(contract.get_proof(&alice, &id).confidence_score, 0);
    assert_eq!(contract.get_proof(&alice, &id).verification_status, VerificationStatus::Rejected);
    assert_eq!(contract.get_ai_analysis(&alice, &id), b"second".to_vec());
}

#[test]
fn user_proofs_come_in_order_of_creation() {
    let alice = account(1);
    let bob = account(2);
    let mut contract = MvxProofMindContract::init();
    assert!(submit(&mut contract, &alice, b"claim number one", b"zzz-first").is_ok());
    assert!(submit(&mut contract, &bob, b"claim of another", b"bob-first").is_ok());
    assert!(submit(&mut contract, &alice, b"claim number two", b"aaa-second").is_ok());
    assert!(submit(&mut contract, &alice, b"claim number three", b"mmm-third").is_ok());
    let listed = contract.get_user_proofs(&alice);
    let ids: Vec<Vec<u8>> = listed.iter().map(|c| c.proof_id.clone()).collect();
    assert_eq!(ids, vec![b"zzz-first".to_vec(), b"aaa-second".to_vec(), b"mmm-third".to_vec()]);
    assert_eq!(contract.get_user_proofs(&bob).len(), 1);
    assert_eq!(contract.get_user_proofs(&account(3)).len(), 0);
}

#[test]
fn category_query_is_not_supported() {
    let alice = account(1);
    let mut contract = MvxProofMindContract::init();
    assert!(submit(&mut contract, &alice, b"a claim of valid length", b"proof-001").is_ok());
    assert_eq!(contract.get_category_stats(&b"GENERAL".to_vec()), 1);
    assert_eq!(
        contract.get_certificates_by_category(&b"GENERAL".to_vec(), 10),
        Vec::<CertificateData>::new()
    );
    assert_eq!(
        contract.get_certificates_by_category(&b"NONE".to_vec(), 0),
        Vec::<CertificateData>::new()
    );
}

#[test]
fn categories_are_counted_apart() {
    let alice = account(1);
    let bob = account(2);
    let mut contract = MvxProofMindContract::init();
    for (caller, id, category) in [
        (&alice, b"proof-001", Some(b"ART".to_vec())),
        (&alice, b"proof-002", None),
        (&bob, b"proof-001", Some(b"ART".to_vec())),
        (&bob, b"proof-003", Some(b"GENERAL".to_vec())),
        (&bob, b"proof-004", Some(Vec::new())),
    ] {
        assert!(contract
            .certify_action(caller, 1, b"a claim of valid length".to_vec(), id.to_vec(), category, None, None)
            .is_ok());
    }
    assert_eq!(contract.get_category_stats(&b"ART".to_vec()), 2);
    assert_eq!(contract.get_category_stats(&b"GENERAL".to_vec()), 2);
    assert_eq!(contract.get_category_stats(&Vec::new()), 1);
    assert_eq!(contract.get_category_stats(&b"art".to_vec()), 0);
    assert_eq!(contract.get_total_proofs(), 5);
}
