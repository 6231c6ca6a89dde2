//! The record store: certificates by owner and identifier, the identifiers
//! that each owner has used, in the order of their creation, and the
//! verifier's analyses. The store applies no rule of the workflow: it keeps
//! what it is given.

use vstd::prelude::*;

use crate::address::Address;
use crate::bytes::{copy_bytes, copy_tags, tags_view};
use crate::certificate::{CertificateData, CertificateView};
use crate::keys::ProofKey;
use crate::table::Table;

verus! {

/// What a record store holds, as mathematical values.
#[verifier::ext_equal]
pub struct RecordsView {
    /// The certificates, by owner and identifier.
    pub records: Map<(Address, Seq<u8>), CertificateView>,
    /// The identifiers that each owner has used, oldest first.
    pub owner_index: Map<Address, Seq<Seq<u8>>>,
    /// The verifier's analyses, by owner and identifier.
    pub analyses: Map<(Address, Seq<u8>), Seq<u8>>,
}

impl RecordsView {
    /// The store that holds nothing.
    pub open spec fn empty() -> RecordsView {
        RecordsView { records: Map::empty(), owner_index: Map::empty(), analyses: Map::empty() }
    }

    /// Whether a record was ever stored under the owner and identifier.
    pub open spec fn contains(self, owner: Address, proof_id: Seq<u8>) -> bool {
        self.records.dom().contains((owner, proof_id))
    }

    /// The record under the owner and identifier, or the empty record where
    /// none was stored.
    pub open spec fn get(self, owner: Address, proof_id: Seq<u8>) -> CertificateView {
        if self.contains(owner, proof_id) {
            self.records[(owner, proof_id)]
        } else {
            CertificateView::empty()
        }
    }

    /// The store after a record is written under the owner and identifier.
    pub open spec fn put(
        self,
        owner: Address,
        proof_id: Seq<u8>,
        certificate: CertificateView,
    ) -> RecordsView {
        RecordsView { records: self.records.insert((owner, proof_id), certificate), ..self }
    }

    /// The identifiers that the owner has used, oldest first.
    pub open spec fn list_owned(self, owner: Address) -> Seq<Seq<u8>> {
        if self.owner_index.dom().contains(owner) {
            self.owner_index[owner]
        } else {
            Seq::empty()
        }
    }

    /// The store after an identifier is added at the end of the owner's list.
    pub open spec fn append_owner_index(self, owner: Address, proof_id: Seq<u8>) -> RecordsView {
        RecordsView {
            owner_index: self.owner_index.insert(owner, self.list_owned(owner).push(proof_id)),
            ..self
        }
    }

    /// The analysis under the owner and identifier, or no bytes where none
    /// was stored.
    pub open spec fn get_analysis(self, owner: Address, proof_id: Seq<u8>) -> Seq<u8> {
        if self.analyses.dom().contains((owner, proof_id)) {
            self.analyses[(owner, proof_id)]
        } else {
            Seq::empty()
        }
    }

    /// The store after an analysis is written under the owner and identifier.
    pub open spec fn put_analysis(
        self,
        owner: Address,
        proof_id: Seq<u8>,
        analysis: Seq<u8>,
    ) -> RecordsView {
        RecordsView { analyses: self.analyses.insert((owner, proof_id), analysis), ..self }
    }
}

/// The store of certificates, owner lists and analyses.
pub struct RecordStore {
    records: Table<ProofKey, CertificateData>,
    owner_index: Table<Address, Vec<Vec<u8>>>,
    analyses: Table<ProofKey, Vec<u8>>,
}

impl RecordStore {
    /// The store keeps each key once.
    pub closed spec fn wf(&self) -> bool {
        &&& self.records.wf()
        &&& self.owner_index.wf()
        &&& self.analyses.wf()
    }

    /// What the store holds.
    pub closed spec fn view(&self) -> RecordsView {
        RecordsView {
            records: Map::new(
                |key: (Address, Seq<u8>)| self.records@.dom().contains(key),
                |key: (Address, Seq<u8>)| self.records@[key]@,
            ),
            owner_index: Map::new(
                |owner: Address| self.owner_index@.dom().contains(owner),
                |owner: Address| tags_view(self.owner_index@[owner]@),
            ),
            analyses: Map::new(
                |key: (Address, Seq<u8>)| self.analyses@.dom().contains(key),
                |key: (Address, Seq<u8>)| self.analyses@[key]@,
            ),
        }
    }

    /// The store holds finitely many records, no more than a machine word
    /// counts.
    pub proof fn lemma_records_bounded(&self)
        requires
            self.wf(),
        ensures
            self@.records.dom().finite(),
            self@.records.dom().len() <= usize::MAX,
    {
        self.records.lemma_size_bounded();
        assert(self@.records.dom() =~= self.records@.dom());
    }

    /// The store that holds nothing.
    pub fn new() -> (store: RecordStore)
        ensures
            store.wf(),
            store@ == RecordsView::empty(),
    {
        let store = RecordStore {
            records: Table::new(),
            owner_index: Table::new(),
            analyses: Table::new(),
        };
        assert(store@ =~= RecordsView::empty());
        store
    }

    /// Whether a record was ever stored under the owner and identifier.
    pub fn contains(&self, owner: &Address, proof_id: &Vec<u8>) -> (found: bool)
        requires
            self.wf(),
        ensures
            found == self@.contains(*owner, proof_id@),
    {
        let key = ProofKey::new(owner, proof_id);
        self.records.get(&key).is_some()
    }

    /// The record under the owner and identifier, or the empty record where
    /// none was stored.
    pub fn get(&self, owner: &Address, proof_id: &Vec<u8>) -> (certificate: CertificateData)
        requires
            self.wf(),
        ensures
            certificate@ == self@.get(*owner, proof_id@),
    {
        let key = ProofKey::new(owner, proof_id);
        match self.records.get(&key) {
            Some(stored) => stored.clone(),
            None => CertificateData::empty(),
        }
    }

    /// Writes the record under the owner and identifier, in place of any
    /// record that was there.
    pub fn put(&mut self, owner: &Address, proof_id: &Vec<u8>, certificate: CertificateData)
        requires
            old(self).wf(),
        ensures
            final(self).wf(),
            final(self)@ == old(self)@.put(*owner, proof_id@, certificate@),
    {
        let key = ProofKey::new(owner, proof_id);
        self.records.put(key, certificate);
        assert(self@ =~= old(self)@.put(*owner, proof_id@, certificate@));
    }

    /// The identifiers that the owner has used, oldest first.
    pub fn list_owned(&self, owner: &Address) -> (proof_ids: Vec<Vec<u8>>)
        requires
            self.wf(),
        ensures
            tags_view(proof_ids@) == self@.list_owned(*owner),
    {
        match self.owner_index.get(owner) {
            Some(stored) => copy_tags(stored),
            None => {
                let proof_ids: Vec<Vec<u8>> = Vec::new();
                assert(tags_view(proof_ids@) =~= self@.list_owned(*owner));
                proof_ids
            },
        }
    }

    /// Adds the identifier at the end of the owner's list.
    pub fn append_owner_index(&mut self, owner: &Address, proof_id: &Vec<u8>)
        requires
            old(self).wf(),
        ensures
            final(self).wf(),
            final(self)@ == old(self)@.append_owner_index(*owner, proof_id@),
    {
        let mut proof_ids = self.list_owned(owner);
        proof_ids.push(copy_bytes(proof_id));
        assert(tags_view(proof_ids@) =~= old(self)@.list_owned(*owner).push(proof_id@));
        self.owner_index.put(*owner, proof_ids);
        assert(self@ =~= old(self)@.append_owner_index(*owner, proof_id@));
    }

    /// The analysis under the owner and identifier, or no bytes where none
    /// was stored.
    pub fn get_analysis(&self, owner: &Address, proof_id: &Vec<u8>) -> (analysis: Vec<u8>)
        requires
            self.wf(),
        ensures
            analysis@ == self@.get_analysis(*owner, proof_id@),
    {
        let key = ProofKey::new(owner, proof_id);
        match self.analyses.get(&key) {
            Some(stored) => copy_bytes(stored),
            None => Vec::new(),
        }
    }

    /// Writes the analysis under the owner and identifier, in place of any
    /// analysis that was there.
    pub fn put_analysis(&mut self, owner: &Address, proof_id: &Vec<u8>, analysis: Vec<u8>)
        requires
            old(self).wf(),
        ensures
            final(self).wf(),
            final(self)@ == old(self)@.put_analysis(*owner, proof_id@, analysis@),
    {
        let key = ProofKey::new(owner, proof_id);
        self.analyses.put(key, analysis);
        assert(self@ =~= old(self)@.put_analysis(*owner, proof_id@, analysis@));
    }
}

} // verus!
