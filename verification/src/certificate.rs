//! The certificate record and its mathematical view.

use vstd::prelude::*;
use vstd::std_specs::cmp::PartialEqSpecImpl;

use crate::address::Address;
use crate::bytes::{copy_bytes, copy_tags, same_bytes, same_tags, tags_view};

verus! {

/// The verdict that the verifier has attached to a certificate.
#[derive(Clone, Copy, PartialEq, Eq, Debug, Structural)]
pub enum VerificationStatus {
    Pending,
    Verified,
    Rejected,
    Flagged,
}

/// A stored claim with its metadata and the outcome of its verification.
#[derive(Debug)]
pub struct CertificateData {
    pub proof_text: Vec<u8>,
    pub timestamp: u64,
    pub proof_id: Vec<u8>,
    pub category: Vec<u8>,
    pub metadata: Vec<u8>,
    pub ai_tags: Vec<Vec<u8>>,
    pub confidence_score: u32,
    pub verification_status: VerificationStatus,
    pub created_by: Address,
}

/// What a certificate holds, as mathematical values.
#[verifier::ext_equal]
pub struct CertificateView {
    pub proof_text: Seq<u8>,
    pub timestamp: u64,
    pub proof_id: Seq<u8>,
    pub category: Seq<u8>,
    pub metadata: Seq<u8>,
    pub ai_tags: Seq<Seq<u8>>,
    pub confidence_score: u32,
    pub verification_status: VerificationStatus,
    pub created_by: Address,
}

impl CertificateView {
    /// The record that is read where nothing was ever stored: every text
    /// empty, every number zero, the status pending, the zero identity.
    pub open spec fn empty() -> CertificateView {
        CertificateView {
            proof_text: Seq::empty(),
            timestamp: 0,
            proof_id: Seq::empty(),
            category: Seq::empty(),
            metadata: Seq::empty(),
            ai_tags: Seq::empty(),
            confidence_score: 0,
            verification_status: VerificationStatus::Pending,
            created_by: Address::spec_zero(),
        }
    }

    /// A record stands for a certificate exactly when its claim text is not
    /// empty.
    pub open spec fn is_present(self) -> bool {
        self.proof_text.len() > 0
    }
}

impl View for CertificateData {
    type V = CertificateView;

    open spec fn view(&self) -> CertificateView {
        CertificateView {
            proof_text: self.proof_text@,
            timestamp: self.timestamp,
            proof_id: self.proof_id@,
            category: self.category@,
            metadata: self.metadata@,
            ai_tags: tags_view(self.ai_tags@),
            confidence_score: self.confidence_score,
            verification_status: self.verification_status,
            created_by: self.created_by,
        }
    }
}

impl CertificateData {
    /// The record that is read where nothing was ever stored.
    pub fn empty() -> (certificate: CertificateData)
        ensures
            certificate@ == CertificateView::empty(),
    {
        let certificate = CertificateData {
            proof_text: Vec::new(),
            timestamp: 0,
            proof_id: Vec::new(),
            category: Vec::new(),
            metadata: Vec::new(),
            ai_tags: Vec::new(),
            confidence_score: 0,
            verification_status: VerificationStatus::Pending,
            created_by: Address::zero(),
        };
        assert(certificate@ =~= CertificateView::empty());
        certificate
    }

    /// Whether the record stands for a certificate: its claim text is not
    /// empty.
    pub fn is_present(&self) -> (present: bool)
        ensures
            present == self@.is_present(),
    {
        self.proof_text.len() > 0
    }
}

impl Clone for CertificateData {
    fn clone(&self) -> (copy: CertificateData)
        ensures
            copy@ == self@,
    {
        CertificateData {
            proof_text: copy_bytes(&self.proof_text),
            timestamp: self.timestamp,
            proof_id: copy_bytes(&self.proof_id),
            category: copy_bytes(&self.category),
            metadata: copy_bytes(&self.metadata),
            ai_tags: copy_tags(&self.ai_tags),
            confidence_score: self.confidence_score,
            verification_status: self.verification_status,
            created_by: self.created_by,
        }
    }
}

impl PartialEq for CertificateData {
    fn eq(&self, other: &CertificateData) -> (same: bool) {
        let same = same_bytes(&self.proof_text, &other.proof_text)
            && self.timestamp == other.timestamp
            && same_bytes(&self.proof_id, &other.proof_id)
            && same_bytes(&self.category, &other.category)
            && same_bytes(&self.metadata, &other.metadata)
            && same_tags(&self.ai_tags, &other.ai_tags)
            && self.confidence_score == other.confidence_score
            && self.verification_status == other.verification_status
            && self.created_by == other.created_by;
        assert(same ==> self@ =~= other@);
        same
    }
}

impl Eq for CertificateData {}

impl PartialEqSpecImpl for CertificateData {
    open spec fn obeys_eq_spec() -> bool {
        true
    }

    open spec fn eq_spec(&self, other: &CertificateData) -> bool {
        self@ == other@
    }
}

} // verus!
