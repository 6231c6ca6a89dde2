//! The rules of the certificate workflow, on single records: which
//! submissions are accepted, what a new certificate holds, who may change a
//! certificate and what a change leaves behind.

use vstd::prelude::*;

use crate::address::Address;
use crate::bytes::tags_view;
use crate::certificate::{CertificateData, CertificateView, VerificationStatus};
use crate::error::ContractError;

verus! {

/// The least number of bytes in a claim text.
pub const MIN_PROOF_TEXT_LEN: usize = 10;

/// The greatest number of bytes in a claim text.
pub const MAX_PROOF_TEXT_LEN: usize = 1000;

/// The least number of bytes in a claim identifier.
pub const MIN_PROOF_ID_LEN: usize = 5;

/// The greatest number of bytes in a claim identifier.
pub const MAX_PROOF_ID_LEN: usize = 100;

/// The confidence score of a certificate that nobody has verified yet.
pub const INITIAL_CONFIDENCE_SCORE: u32 = 100;

/// A claim text is accepted when it has between 10 and 1000 bytes.
pub open spec fn valid_proof_text(proof_text: Seq<u8>) -> bool {
    10 <= proof_text.len() <= 1000
}

/// A claim identifier is accepted when it has between 5 and 100 bytes.
pub open spec fn valid_proof_id(proof_id: Seq<u8>) -> bool {
    5 <= proof_id.len() <= 100
}

/// The category of a certificate submitted without one: the bytes of
/// `GENERAL`.
pub open spec fn default_category() -> Seq<u8> {
    seq![71u8, 69u8, 78u8, 69u8, 82u8, 65u8, 76u8]
}

/// The metadata of a certificate submitted without any: the bytes of `{}`.
pub open spec fn default_metadata() -> Seq<u8> {
    seq![123u8, 125u8]
}

/// The bytes of an optional byte string.
pub open spec fn bytes_option(value: Option<Vec<u8>>) -> Option<Seq<u8>> {
    match value {
        Some(bytes) => Some(bytes@),
        None => None,
    }
}

/// The byte strings of an optional list of byte strings.
pub open spec fn tags_option(value: Option<Vec<Vec<u8>>>) -> Option<Seq<Seq<u8>>> {
    match value {
        Some(tags) => Some(tags_view(tags@)),
        None => None,
    }
}

/// The verdict on a submission. The text is judged first, then the
/// identifier, then whether the caller has used the identifier before.
pub open spec fn submission_check(proof_text: Seq<u8>, proof_id: Seq<u8>, taken: bool) -> Result<
    (),
    ContractError,
> {
    if !valid_proof_text(proof_text) {
        Err(ContractError::InvalidProofText)
    } else if !valid_proof_id(proof_id) {
        Err(ContractError::InvalidProofId)
    } else if taken {
        Err(ContractError::DuplicateProofId)
    } else {
        Ok(())
    }
}

/// The certificate that an accepted submission stores: the caller owns it,
/// it is pending with the initial confidence score, and whatever the caller
/// left out has its default.
pub open spec fn submitted_certificate(
    caller: Address,
    timestamp: u64,
    proof_text: Seq<u8>,
    proof_id: Seq<u8>,
    category: Option<Seq<u8>>,
    metadata: Option<Seq<u8>>,
    ai_tags: Option<Seq<Seq<u8>>>,
) -> CertificateView {
    CertificateView {
        proof_text,
        timestamp,
        proof_id,
        category: match category {
            Some(label) => label,
            None => default_category(),
        },
        metadata: match metadata {
            Some(document) => document,
            None => default_metadata(),
        },
        ai_tags: match ai_tags {
            Some(tags) => tags,
            None => Seq::empty(),
        },
        confidence_score: 100,
        verification_status: VerificationStatus::Pending,
        created_by: caller,
    }
}

/// The verdict on an update of a stored record by a caller: the record must
/// stand for a certificate, and the caller must have created it.
pub open spec fn update_check(stored: CertificateView, caller: Address) -> Result<
    (),
    ContractError,
> {
    if !stored.is_present() {
        Err(ContractError::NotFound)
    } else if stored.created_by != caller {
        Err(ContractError::Unauthorized)
    } else {
        Ok(())
    }
}

/// The certificate after an update: each field for which a replacement is
/// given holds the replacement as it is, and every other field is as before.
pub open spec fn updated_certificate(
    stored: CertificateView,
    new_proof_text: Option<Seq<u8>>,
    new_category: Option<Seq<u8>>,
    new_metadata: Option<Seq<u8>>,
    new_ai_tags: Option<Seq<Seq<u8>>>,
) -> CertificateView {
    CertificateView {
        proof_text: match new_proof_text {
            Some(text) => text,
            None => stored.proof_text,
        },
        category: match new_category {
            Some(label) => label,
            None => stored.category,
        },
        metadata: match new_metadata {
            Some(document) => document,
            None => stored.metadata,
        },
        ai_tags: match new_ai_tags {
            Some(tags) => tags,
            None => stored.ai_tags,
        },
        ..stored
    }
}

/// The verdict on a verification: the caller must be the verifier, and the
/// record must stand for a certificate. The caller is judged first.
pub open spec fn verification_check(
    stored: CertificateView,
    caller: Address,
    verifier: Address,
) -> Result<(), ContractError> {
    if caller != verifier {
        Err(ContractError::Unauthorized)
    } else if !stored.is_present() {
        Err(ContractError::NotFound)
    } else {
        Ok(())
    }
}

/// The certificate after a verification: score and status are the
/// verifier's, every other field is as before.
pub open spec fn verified_certificate(
    stored: CertificateView,
    confidence_score: u32,
    verification_status: VerificationStatus,
) -> CertificateView {
    CertificateView { confidence_score, verification_status, ..stored }
}

/// The bytes of `GENERAL`.
pub fn default_category_bytes() -> (bytes: Vec<u8>)
    ensures
        bytes@ == default_category(),
{
    let mut bytes: Vec<u8> = Vec::new();
    bytes.push(71u8);
    bytes.push(69u8);
    bytes.push(78u8);
    bytes.push(69u8);
    bytes.push(82u8);
    bytes.push(65u8);
    bytes.push(76u8);
    assert(bytes@ =~= default_category());
    bytes
}

/// The bytes of `{}`.
pub fn default_metadata_bytes() -> (bytes: Vec<u8>)
    ensures
        bytes@ == default_metadata(),
{
    let mut bytes: Vec<u8> = Vec::new();
    bytes.push(123u8);
    bytes.push(125u8);
    assert(bytes@ =~= default_metadata());
    bytes
}

/// Judges a submission: `taken` says whether the caller has already stored
/// a record under the identifier.
pub fn check_submission(proof_text: &Vec<u8>, proof_id: &Vec<u8>, taken: bool) -> (verdict: Result<
    (),
    ContractError,
>)
    ensures
        verdict == submission_check(proof_text@, proof_id@, taken),
{
    if proof_text.len() < MIN_PROOF_TEXT_LEN || proof_text.len() > MAX_PROOF_TEXT_LEN {
        Err(ContractError::InvalidProofText)
    } else if proof_id.len() < MIN_PROOF_ID_LEN || proof_id.len() > MAX_PROOF_ID_LEN {
        Err(ContractError::InvalidProofId)
    } else if taken {
        Err(ContractError::DuplicateProofId)
    } else {
        Ok(())
    }
}

/// Builds the certificate that an accepted submission stores.
pub fn new_certificate(
    caller: Address,
    timestamp: u64,
    proof_text: Vec<u8>,
    proof_id: Vec<u8>,
    category: Option<Vec<u8>>,
    metadata: Option<Vec<u8>>,
    ai_tags: Option<Vec<Vec<u8>>>,
) -> (certificate: CertificateData)
    ensures
        certificate@ == submitted_certificate(
            caller,
            timestamp,
            proof_text@,
            proof_id@,
            bytes_option(category),
            bytes_option(metadata),
            tags_option(ai_tags),
        ),
{
    let category_value = match category {
        Some(label) => label,
        None => default_category_bytes(),
    };
    let metadata_value = match metadata {
        Some(document) => document,
        None => default_metadata_bytes(),
    };
    let ai_tags_value = match ai_tags {
        Some(tags) => tags,
        None => Vec::new(),
    };
    let certificate = CertificateData {
        proof_text,
        timestamp,
        proof_id,
        category: category_value,
        metadata: metadata_value,
        ai_tags: ai_tags_value,
        confidence_score: INITIAL_CONFIDENCE_SCORE,
        verification_status: VerificationStatus::Pending,
        created_by: caller,
    };
    assert(certificate@ =~= submitted_certificate(
        caller,
        timestamp,
        proof_text@,
        proof_id@,
        bytes_option(category),
        bytes_option(metadata),
        tags_option(ai_tags),
    ));
    certificate
}

/// Applies an update by `caller` to a stored record, or says why the caller
/// may not update it.
pub fn apply_update(
    stored: CertificateData,
    caller: &Address,
    new_proof_text: Option<Vec<u8>>,
    new_category: Option<Vec<u8>>,
    new_metadata: Option<Vec<u8>>,
    new_ai_tags: Option<Vec<Vec<u8>>>,
) -> (outcome: Result<CertificateData, ContractError>)
    ensures
        match outcome {
            Ok(certificate) => update_check(stored@, *caller) is Ok && certificate@
                == updated_certificate(
                stored@,
                bytes_option(new_proof_text),
                bytes_option(new_category),
                bytes_option(new_metadata),
                tags_option(new_ai_tags),
            ),
            Err(error) => update_check(stored@, *caller) == Err::<(), ContractError>(error),
        },
{
    if !stored.is_present() {
        return Err(ContractError::NotFound);
    }
    if stored.created_by != *caller {
        return Err(ContractError::Unauthorized);
    }
    let mut certificate = stored;
    if let Some(text) = new_proof_text {
        certificate.proof_text = text;
    }
    if let Some(label) = new_category {
        certificate.category = label;
    }
    if let Some(document) = new_metadata {
        certificate.metadata = document;
    }
    if let Some(tags) = new_ai_tags {
        certificate.ai_tags = tags;
    }
    assert(certificate@ =~= updated_certificate(
        stored@,
        bytes_option(new_proof_text),
        bytes_option(new_category),
        bytes_option(new_metadata),
        tags_option(new_ai_tags),
    ));
    Ok(certificate)
}

/// Applies a verification by `caller` to a stored record, or says why it is
/// not applied. `verifier` is the one identity that may verify.
pub fn apply_verification(
    stored: CertificateData,
    caller: &Address,
    verifier: &Address,
    confidence_score: u32,
    verification_status: VerificationStatus,
) -> (outcome: Result<CertificateData, ContractError>)
    ensures
        match outcome {
            Ok(certificate) => verification_check(stored@, *caller, *verifier) is Ok
                && certificate@ == verified_certificate(
                stored@,
                confidence_score,
                verification_status,
            ),
            Err(error) => verification_check(stored@, *caller, *verifier) == Err::<
                (),
                ContractError,
            >(error),
        },
{
    if *caller != *verifier {
        return Err(ContractError::Unauthorized);
    }
    if !stored.is_present() {
        return Err(ContractError::NotFound);
    }
    let mut certificate = stored;
    certificate.confidence_score = confidence_score;
    certificate.verification_status = verification_status;
    assert(certificate@ =~= verified_certificate(stored@, confidence_score, verification_status));
    Ok(certificate)
}

} // verus!
