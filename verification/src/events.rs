//! The events by which the registry reports what it has done.

use vstd::prelude::*;
use vstd::std_specs::cmp::PartialEqSpecImpl;

use crate::address::Address;
use crate::bytes::same_bytes;
use crate::certificate::VerificationStatus;

verus! {

/// What a successful operation reports to whoever delivers events.
#[derive(Debug)]
pub enum ContractEvent {
    /// A certificate was created.
    CertificateCreated {
        user: Address,
        proof_id: Vec<u8>,
        proof_text: Vec<u8>,
        category: Vec<u8>,
        metadata: Vec<u8>,
        timestamp: u64,
    },
    /// The owner changed a certificate.
    CertificateUpdated { user: Address, proof_id: Vec<u8>, timestamp: u64 },
    /// The verifier attached a score and a status to a certificate.
    AiVerification {
        user: Address,
        proof_id: Vec<u8>,
        verification_status: VerificationStatus,
        confidence_score: u32,
        ai_analysis: Vec<u8>,
    },
}

/// What an event carries, as mathematical values.
#[verifier::ext_equal]
pub enum EventView {
    CertificateCreated {
        user: Address,
        proof_id: Seq<u8>,
        proof_text: Seq<u8>,
        category: Seq<u8>,
        metadata: Seq<u8>,
        timestamp: u64,
    },
    CertificateUpdated { user: Address, proof_id: Seq<u8>, timestamp: u64 },
    AiVerification {
        user: Address,
        proof_id: Seq<u8>,
        verification_status: VerificationStatus,
        confidence_score: u32,
        ai_analysis: Seq<u8>,
    },
}

impl View for ContractEvent {
    type V = EventView;

    open spec fn view(&self) -> EventView {
        match *self {
            ContractEvent::CertificateCreated {
                user,
                proof_id,
                proof_text,
                category,
                metadata,
                timestamp,
            } => EventView::CertificateCreated {
                user,
                proof_id: proof_id@,
                proof_text: proof_text@,
                category: category@,
                metadata: metadata@,
                timestamp,
            },
            ContractEvent::CertificateUpdated {
                user,
                proof_id,
                timestamp,
            } => EventView::CertificateUpdated { user, proof_id: proof_id@, timestamp },
            ContractEvent::AiVerification {
                user,
                proof_id,
                verification_status,
                confidence_score,
                ai_analysis,
            } => EventView::AiVerification {
                user,
                proof_id: proof_id@,
                verification_status,
                confidence_score,
                ai_analysis: ai_analysis@,
            },
        }
    }
}

impl PartialEq for ContractEvent {
    fn eq(&self, other: &ContractEvent) -> (same: bool) {
        match (self, other) {
            (
                ContractEvent::CertificateCreated {
                    user,
                    proof_id,
                    proof_text,
                    category,
                    metadata,
                    timestamp,
                },
                ContractEvent::CertificateCreated {
                    user: other_user,
                    proof_id: other_proof_id,
                    proof_text: other_proof_text,
                    category: other_category,
                    metadata: other_metadata,
                    timestamp: other_timestamp,
                },
            ) => {
                *user == *other_user && same_bytes(proof_id, other_proof_id) && same_bytes(
                    proof_text,
                    other_proof_text,
                ) && same_bytes(category, other_category) && same_bytes(metadata, other_metadata)
                    && *timestamp == *other_timestamp
            },
            (
                ContractEvent::CertificateUpdated { user, proof_id, timestamp },
                ContractEvent::CertificateUpdated {
                    user: other_user,
                    proof_id: other_proof_id,
                    timestamp: other_timestamp,
                },
            ) => {
                *user == *other_user && same_bytes(proof_id, other_proof_id) && *timestamp
                    == *other_timestamp
            },
            (
                ContractEvent::AiVerification {
                    user,
                    proof_id,
                    verification_status,
                    confidence_score,
                    ai_analysis,
                },
                ContractEvent::AiVerification {
                    user: other_user,
                    proof_id: other_proof_id,
                    verification_status: other_status,
                    confidence_score: other_score,
                    ai_analysis: other_analysis,
                },
            ) => {
                *user == *other_user && same_bytes(proof_id, other_proof_id)
                    && *verification_status == *other_status && *confidence_score == *other_score
                    && same_bytes(ai_analysis, other_analysis)
            },
            _ => false,
        }
    }
}

impl Eq for ContractEvent {}

impl PartialEqSpecImpl for ContractEvent {
    open spec fn obeys_eq_spec() -> bool {
        true
    }

    open spec fn eq_spec(&self, other: &ContractEvent) -> bool {
        self@ == other@
    }
}

} // verus!
