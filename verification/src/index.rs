//! The aggregate index: how many certificates were created in all, and how
//! many under each category.

use vstd::prelude::*;

use crate::bytes::copy_bytes;
use crate::table::Table;

verus! {

/// What an aggregate index holds, as mathematical values.
#[verifier::ext_equal]
pub struct IndexView {
    /// The number of certificates created.
    pub total: nat,
    /// The number of certificates created under each category that has any.
    pub categories: Map<Seq<u8>, nat>,
}

impl IndexView {
    /// The index that has counted nothing.
    pub open spec fn empty() -> IndexView {
        IndexView { total: 0, categories: Map::empty() }
    }

    /// The number of certificates created under the category.
    pub open spec fn get_category_count(self, category: Seq<u8>) -> nat {
        if self.categories.dom().contains(category) {
            self.categories[category]
        } else {
            0
        }
    }

    /// The index after one more certificate is counted in the total.
    pub open spec fn increment_total(self) -> IndexView {
        IndexView { total: self.total + 1, ..self }
    }

    /// The index after one more certificate is counted under the category.
    pub open spec fn increment_category(self, category: Seq<u8>) -> IndexView {
        IndexView {
            categories: self.categories.insert(category, self.get_category_count(category) + 1),
            ..self
        }
    }
}

/// The counters of the registry.
pub struct AggregateIndex {
    total: u64,
    categories: Table<Vec<u8>, u64>,
}

impl AggregateIndex {
    /// The index keeps each category once.
    pub closed spec fn wf(&self) -> bool {
        self.categories.wf()
    }

    /// What the index holds.
    pub closed spec fn view(&self) -> IndexView {
        IndexView {
            total: self.total as nat,
            categories: Map::new(
                |category: Seq<u8>| self.categories@.dom().contains(category),
                |category: Seq<u8>| self.categories@[category] as nat,
            ),
        }
    }

    /// The index that has counted nothing.
    pub fn new() -> (index: AggregateIndex)
        ensures
            index.wf(),
            index@ == IndexView::empty(),
    {
        let index = AggregateIndex { total: 0, categories: Table::new() };
        assert(index@ =~= IndexView::empty());
        index
    }

    /// The number of certificates created.
    pub fn get_total(&self) -> (total: u64)
        ensures
            total == self@.total,
    {
        self.total
    }

    /// The number of certificates created under the category.
    pub fn get_category_count(&self, category: &Vec<u8>) -> (count: u64)
        requires
            self.wf(),
        ensures
            count == self@.get_category_count(category@),
    {
        match self.categories.get(category) {
            Some(count) => *count,
            None => 0,
        }
    }

    /// Counts one more certificate in the total and returns the new total.
    pub fn increment_total(&mut self) -> (total: u64)
        requires
            old(self).wf(),
            old(self)@.total < u64::MAX,
        ensures
            final(self).wf(),
            final(self)@ == old(self)@.increment_total(),
            total == final(self)@.total,
    {
        self.total = self.total + 1;
        assert(self@ =~= old(self)@.increment_total());
        self.total
    }

    /// Counts one more certificate under the category and returns the new
    /// count.
    pub fn increment_category(&mut self, category: &Vec<u8>) -> (count: u64)
        requires
            old(self).wf(),
            old(self)@.get_category_count(category@) < u64::MAX,
        ensures
            final(self).wf(),
            final(self)@ == old(self)@.increment_category(category@),
            count == final(self)@.get_category_count(category@),
    {
        let count = self.get_category_count(category) + 1;
        self.categories.put(copy_bytes(category), count);
        assert(self@ =~= old(self)@.increment_category(category@));
        count
    }
}

} // verus!
