//! The filter controller: owns the current query, the filtered index list
//! and the selection, and exposes the mutation operations the launcher
//! drives it with. Filtering itself is the scorer's job; results computed
//! off-thread come back through `apply_async_result`, which discards them
//! when the query has moved on.

use vstd::prelude::*;

use crate::item::Item;
use crate::scorer::distinct_indices;
use crate::scorer::filter_sync;
use crate::scorer::identity_indices;
use crate::scorer::lemma_filter_sound;
use crate::scorer::spec_filter;
use crate::scorer::valid_indices;

verus! {

/// The row selected after a filter pass: the first row when there is one,
/// none on an empty result.
pub open spec fn reset_selection(count: nat) -> Option<usize> {
    if count == 0 {
        None
    } else {
        Some(0usize)
    }
}

/// The position navigation starts from: the selected row, or the first row
/// when nothing is selected.
pub open spec fn current_row(selected: Option<usize>) -> int {
    match selected {
        Some(s) => s as int,
        None => 0,
    }
}

/// The row after `cur`, wrapping from the last row to the first.
pub open spec fn wrap_next(cur: int, count: int) -> int {
    if cur + 1 >= count {
        0
    } else {
        cur + 1
    }
}

/// The row before `cur`, wrapping from the first row to the last.
pub open spec fn wrap_previous(cur: int, count: int) -> int {
    if cur == 0 {
        count - 1
    } else {
        cur - 1
    }
}

/// Query state, filtered index list and selection over an immutable item
/// collection.
pub struct FilterController {
    items: Vec<Item>,
    query: String,
    filtered_indices: Vec<usize>,
    selected_index: Option<usize>,
}

impl FilterController {
    /// The item collection, as loaded at construction.
    pub closed spec fn items_view(&self) -> Seq<Item> {
        self.items@
    }

    /// The current query text.
    pub closed spec fn query_view(&self) -> Seq<char> {
        self.query@
    }

    /// The current filtered index list.
    pub closed spec fn filtered_view(&self) -> Seq<usize> {
        self.filtered_indices@
    }

    /// The current selection.
    pub closed spec fn spec_selected(&self) -> Option<usize> {
        self.selected_index
    }

    /// The structural invariant: the filtered list holds only positions
    /// inside the collection, none twice; the selection is a valid row of
    /// the filtered list, absent exactly when the list is empty.
    pub open spec fn wf(&self) -> bool {
        &&& valid_indices(self.filtered_view(), self.items_view().len() as int)
        &&& distinct_indices(self.filtered_view())
        &&& (self.spec_selected() is None <==> self.filtered_view().len() == 0)
        &&& (self.spec_selected() matches Some(s) ==> (s as int) < self.filtered_view().len())
    }

    /// The filtered list is the scorer's answer for the current query: it
    /// holds after construction and after every synchronous filter pass,
    /// but not necessarily between `set_query_only` and the arrival of the
    /// background result.
    pub open spec fn synced(&self) -> bool {
        self.filtered_view() == spec_filter(self.items_view(), self.query_view())
    }

    /// A fresh controller: empty query, the whole collection in load order,
    /// the first row selected when there is one.
    pub fn new(items: Vec<Item>) -> (c: FilterController)
        ensures
            c.wf(),
            c.synced(),
            c.items_view() == items@,
            c.query_view() == Seq::<char>::empty(),
            c.filtered_view() == identity_indices(items@.len() as int),
            c.spec_selected() == reset_selection(items@.len()),
    {
        let mut c = FilterController {
            items,
            query: String::new(),
            filtered_indices: Vec::new(),
            selected_index: None,
        };
        let filtered = filter_sync(&c.items, c.query.as_str());
        c.selected_index = if filtered.len() > 0 {
            Some(0)
        } else {
            None
        };
        c.filtered_indices = filtered;
        proof {
            lemma_filter_sound(c.items@, c.query@);
        }
        c
    }

    /// The item collection, for handing to a background scoring pass.
    pub fn items(&self) -> (r: &Vec<Item>)
        ensures
            r@ == self.items_view(),
    {
        &self.items
    }

    /// Replace the query and refilter synchronously, resetting the
    /// selection to the top. Rerunning this with the same query always
    /// rebuilds the same filtered list: the result is a function of the
    /// collection and the query alone.
    pub fn set_query_and_filter(&mut self, new_query: String)
        ensures
            final(self).wf(),
            final(self).synced(),
            final(self).items_view() == old(self).items_view(),
            final(self).query_view() == new_query@,
            final(self).filtered_view() == spec_filter(old(self).items_view(), new_query@),
            final(self).spec_selected() == reset_selection(
                spec_filter(old(self).items_view(), new_query@).len(),
            ),
    {
        self.query = new_query;
        let filtered = filter_sync(&self.items, self.query.as_str());
        self.selected_index = if filtered.len() > 0 {
            Some(0)
        } else {
            None
        };
        self.filtered_indices = filtered;
        proof {
            lemma_filter_sound(self.items@, self.query@);
        }
    }

    /// Clear the query: back to the identity ordering over the whole
    /// collection, whatever was filtered before.
    pub fn clear_query(&mut self)
        ensures
            final(self).wf(),
            final(self).synced(),
            final(self).items_view() == old(self).items_view(),
            final(self).query_view() == Seq::<char>::empty(),
            final(self).filtered_view() == identity_indices(old(self).items_view().len() as int),
            final(self).spec_selected() == reset_selection(old(self).items_view().len()),
    {
        self.set_query_and_filter(String::new());
    }

    /// Replace the query text without refiltering: the immediate half of
    /// the asynchronous path, so the input box never waits on scoring.
    pub fn set_query_only(&mut self, new_query: String)
        ensures
            final(self).query_view() == new_query@,
            final(self).items_view() == old(self).items_view(),
            final(self).filtered_view() == old(self).filtered_view(),
            final(self).spec_selected() == old(self).spec_selected(),
            old(self).wf() ==> final(self).wf(),
    {
        self.query = new_query;
    }

    /// Guarded commit of a background scoring result: applied, with the
    /// selection reset, only when `originating_query` is still the live
    /// query; a stale result leaves the state untouched.
    pub fn apply_async_result(&mut self, originating_query: String, computed_indices: Vec<usize>)
        requires
            old(self).wf(),
            valid_indices(computed_indices@, old(self).items_view().len() as int),
            distinct_indices(computed_indices@),
        ensures
            final(self).wf(),
            final(self).items_view() == old(self).items_view(),
            final(self).query_view() == old(self).query_view(),
            old(self).query_view() == originating_query@ ==> {
                &&& final(self).filtered_view() == computed_indices@
                &&& final(self).spec_selected() == reset_selection(computed_indices@.len())
            },
            old(self).query_view() != originating_query@ ==> {
                &&& final(self).filtered_view() == old(self).filtered_view()
                &&& final(self).spec_selected() == old(self).spec_selected()
            },
            (old(self).query_view() == originating_query@ && computed_indices@ == spec_filter(
                old(self).items_view(),
                originating_query@,
            )) ==> final(self).synced(),
    {
        if self.query == originating_query {
            self.selected_index = if computed_indices.len() > 0 {
                Some(0)
            } else {
                None
            };
            self.filtered_indices = computed_indices;
        }
    }

    /// The current query text.
    pub fn query(&self) -> (q: &str)
        ensures
            q@ == self.query_view(),
    {
        self.query.as_str()
    }

    /// How many rows the filtered list shows.
    pub fn filtered_count(&self) -> (n: usize)
        ensures
            n as int == self.filtered_view().len(),
    {
        self.filtered_indices.len()
    }

    /// The filtered index list itself: positions into the item collection,
    /// best match first.
    pub fn filtered_indices(&self) -> (r: &Vec<usize>)
        ensures
            r@ == self.filtered_view(),
    {
        &self.filtered_indices
    }

    /// The selected row, if any.
    pub fn selected_index(&self) -> (s: Option<usize>)
        ensures
            s == self.spec_selected(),
    {
        self.selected_index
    }

    /// Select a row directly. The row must come from the current filtered
    /// list; that is the caller's contract.
    pub fn set_selected(&mut self, index: usize)
        requires
            old(self).wf(),
            (index as int) < old(self).filtered_view().len(),
        ensures
            final(self).wf(),
            final(self).spec_selected() == Some(index),
            final(self).items_view() == old(self).items_view(),
            final(self).query_view() == old(self).query_view(),
            final(self).filtered_view() == old(self).filtered_view(),
    {
        self.selected_index = Some(index);
    }

    /// Resolve a display row to its item. A row beyond the filtered list
    /// resolves to nothing; it never reads out of range.
    pub fn item_at(&self, row: usize) -> (r: Option<&Item>)
        requires
            self.wf(),
        ensures
            (row as int) < self.filtered_view().len() ==> {
                &&& r is Some
                &&& *r->0 == self.items_view()[self.filtered_view()[row as int] as int]
            },
            (row as int) >= self.filtered_view().len() ==> r is None,
    {
        if row < self.filtered_indices.len() {
            let idx = self.filtered_indices[row];
            Some(&self.items[idx])
        } else {
            None
        }
    }

    /// The item under the selection, if any: what "confirm" hands to the
    /// launch callback.
    pub fn selected_item(&self) -> (r: Option<&Item>)
        requires
            self.wf(),
        ensures
            self.spec_selected() matches Some(s) ==> {
                &&& r is Some
                &&& *r->0 == self.items_view()[self.filtered_view()[s as int] as int]
            },
            self.spec_selected() is None ==> r is None,
    {
        match self.selected_index {
            Some(s) => self.item_at(s),
            None => None,
        }
    }

    /// Move the selection one row down, wrapping from the last row to the
    /// first. On an empty filtered list this is a no-op and the selection
    /// stays absent.
    pub fn select_next(&mut self)
        requires
            old(self).wf(),
        ensures
            final(self).wf(),
            final(self).items_view() == old(self).items_view(),
            final(self).query_view() == old(self).query_view(),
            final(self).filtered_view() == old(self).filtered_view(),
            old(self).filtered_view().len() == 0 ==> final(self).spec_selected() == old(
                self,
            ).spec_selected(),
            old(self).filtered_view().len() > 0 ==> final(self).spec_selected() == Some(
                wrap_next(
                    current_row(old(self).spec_selected()),
                    old(self).filtered_view().len() as int,
                ) as usize,
            ),
    {
        let count = self.filtered_indices.len();
        if count == 0 {
            return;
        }
        let current = match self.selected_index {
            Some(s) => s,
            None => 0,
        };
        let next = if current + 1 >= count {
            0
        } else {
            current + 1
        };
        self.selected_index = Some(next);
    }

    /// Move the selection one row up, wrapping from the first row to the
    /// last. On an empty filtered list this is a no-op and the selection
    /// stays absent.
    pub fn select_previous(&mut self)
        requires
            old(self).wf(),
        ensures
            final(self).wf(),
            final(self).items_view() == old(self).items_view(),
            final(self).query_view() == old(self).query_view(),
            final(self).filtered_view() == old(self).filtered_view(),
            old(self).filtered_view().len() == 0 ==> final(self).spec_selected() == old(
                self,
            ).spec_selected(),
            old(self).filtered_view().len() > 0 ==> final(self).spec_selected() == Some(
                wrap_previous(
                    current_row(old(self).spec_selected()),
                    old(self).filtered_view().len() as int,
                ) as usize,
            ),
    {
        let count = self.filtered_indices.len();
        if count == 0 {
            return;
        }
        let current = match self.selected_index {
            Some(s) => s,
            None => 0,
        };
        let previous = if current == 0 {
            count - 1
        } else {
            current - 1
        };
        self.selected_index = Some(previous);
    }
}

/// Determinism of filtering: two controllers over the same collection,
/// synced on the same query, show the same filtered list. Rerunning
/// `set_query_and_filter` with an unchanged query therefore rebuilds an
/// identical result.
pub proof fn lemma_filter_deterministic(c1: &FilterController, c2: &FilterController)
    requires
        c1.synced(),
        c2.synced(),
        c1.items_view() == c2.items_view(),
        c1.query_view() == c2.query_view(),
    ensures
        c1.filtered_view() == c2.filtered_view(),
{
}

} // verus!
