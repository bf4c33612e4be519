//! The selectable list controller: a candidate set, a query, the filtered
//! order derived from them, and a cursor into that order.

use vstd::prelude::*;

use crate::fuzzy::{
    filter_order, lemma_filter_order_identity, lemma_filter_order_props, lemma_ordered_insert_at,
    order_complete, order_distinct, order_sound, scorable, score_query, scored_of,
};
use crate::text::{pop_char, push_char};

verus! {

/// A candidate a list can hold: it projects a display line and a search text,
/// each pinned to a spec-level sequence.
pub trait Searchable: Sized {
    /// The characters the fuzzy filter sees.
    spec fn search_spec(&self) -> Seq<char>;

    /// The characters the list shows.
    spec fn display_spec(&self) -> Seq<char>;

    /// The text the fuzzy filter runs on.
    fn search_text(&self) -> (r: String)
        ensures
            r@ == self.search_spec(),
    ;

    /// The line the list shows for this candidate.
    fn display_name(&self) -> (r: String)
        ensures
            r@ == self.display_spec(),
    ;
}

/// The search texts of a candidate sequence, in order.
pub open spec fn search_texts<T: Searchable>(items: Seq<T>) -> Seq<Seq<char>> {
    items.map_values(|t: T| t.search_spec())
}

/// Every candidate's search text stays under the scorer's machine limit.
pub open spec fn items_scorable<T: Searchable>(items: Seq<T>) -> bool {
    forall|i: int| 0 <= i < items.len() ==> scorable((#[trigger] items[i]).search_spec())
}

/// Where the cursor lands when the order it points into is recomputed: gone
/// when the order is empty, kept when still valid, else back to the top.
pub open spec fn clamp_cursor(cur: Option<usize>, len: nat) -> Option<usize> {
    if len == 0 {
        None
    } else {
        match cur {
            Some(c) => if c < len {
                Some(c)
            } else {
                Some(0usize)
            },
            None => Some(0usize),
        }
    }
}

/// A fuzzy-filtered selectable list over candidates of one type.
pub struct FuzzyList<T> {
    title: String,
    items: Vec<T>,
    filtered_indices: Vec<usize>,
    query: String,
    cursor: Option<usize>,
}

impl<T: Searchable> FuzzyList<T> {
    /// The candidate set.
    pub closed spec fn items_spec(&self) -> Seq<T> {
        self.items@
    }

    /// The query string.
    pub closed spec fn query_spec(&self) -> Seq<char> {
        self.query@
    }

    /// The filtered order: positions into the candidate set.
    pub closed spec fn order_spec(&self) -> Seq<usize> {
        self.filtered_indices@
    }

    /// The cursor into the filtered order.
    pub closed spec fn cursor_spec(&self) -> Option<usize> {
        self.cursor
    }

    /// The title line.
    pub closed spec fn title_spec(&self) -> Seq<char> {
        self.title@
    }

    /// The cursor invariant: the cursor is absent exactly when the filtered
    /// order is empty and otherwise lies inside it, and the order points at
    /// distinct valid candidates.
    pub open spec fn wf(&self) -> bool {
        &&& match self.cursor_spec() {
            None => self.order_spec().len() == 0,
            Some(c) => c < self.order_spec().len(),
        }
        &&& forall|k: int|
            0 <= k < self.order_spec().len() ==> (#[trigger] self.order_spec()[k])
                < self.items_spec().len()
        &&& order_distinct(self.order_spec())
        &&& items_scorable(self.items_spec())
    }

    /// The filtered order is the one the query and the candidate set dictate.
    pub open spec fn order_current(&self) -> bool {
        self.order_spec() == filter_order(search_texts(self.items_spec()), self.query_spec())
    }

    /// A fresh, empty list.
    pub fn new(title: String) -> (r: FuzzyList<T>)
        ensures
            r.wf(),
            r.order_current(),
            r.items_spec().len() == 0,
            r.query_spec().len() == 0,
            r.cursor_spec() is None,
            r.title_spec() == title@,
    {
        let r = FuzzyList {
            title,
            items: Vec::new(),
            filtered_indices: Vec::new(),
            query: String::new(),
            cursor: None,
        };
        proof {
            assert(search_texts(r.items_spec()) =~= Seq::<Seq<char>>::empty());
            assert(r.order_spec() =~= filter_order(
                search_texts(r.items_spec()),
                r.query_spec(),
            ));
        }
        r
    }

    /// The title line.
    pub fn title(&self) -> (r: &String)
        ensures
            r@ == self.title_spec(),
    {
        &self.title
    }

    /// Recomputes the filtered order from the current query and candidate
    /// set, then clamps the cursor into it.
    fn update_filter(&mut self)
        requires
            items_scorable(old(self).items_spec()),
        ensures
            final(self).items_spec() == old(self).items_spec(),
            final(self).query_spec() == old(self).query_spec(),
            final(self).title_spec() == old(self).title_spec(),
            final(self).order_current(),
            final(self).cursor_spec() == clamp_cursor(
                old(self).cursor_spec(),
                final(self).order_spec().len(),
            ),
            final(self).wf(),
            final(self).query_spec().len() != 0 ==> order_sound(
                search_texts(final(self).items_spec()),
                final(self).query_spec(),
                final(self).order_spec(),
            ),
            final(self).query_spec().len() != 0 ==> order_complete(
                search_texts(final(self).items_spec()),
                final(self).query_spec(),
                final(self).order_spec(),
            ),
    {
        let ghost texts = search_texts(self.items@);
        let query_len = self.query.as_str().unicode_len();
        if query_len == 0 {
            let n = self.items.len();
            let mut order: Vec<usize> = Vec::new();
            let mut i: usize = 0;
            while i < n
                invariant
                    i <= n,
                    order@.len() == i,
                    forall|k: int| 0 <= k < i ==> #[trigger] order@[k] == k as usize,
                decreases n - i,
            {
                order.push(i);
                i += 1;
            }
            self.filtered_indices = order;
            proof {
                assert(texts.len() == n);
                assert(self.filtered_indices@ =~= filter_order(texts, self.query@));
            }
        } else {
            let n = self.items.len();
            let mut sorted: Vec<(usize, u32)> = Vec::new();
            let mut i: usize = 0;
            proof {
                assert(texts.take(0) =~= Seq::<Seq<char>>::empty());
            }
            while i < n
                invariant
                    i <= n,
                    n == self.items@.len(),
                    texts == search_texts(self.items@),
                    texts.len() == n,
                    self.query@.len() != 0,
                    items_scorable(self.items@),
                    sorted@ == scored_of(texts.take(i as int), self.query@),
                decreases n - i,
            {
                let text = self.items[i].search_text();
                proof {
                    assert(scorable(self.items@[i as int].search_spec()));
                    assert(texts[i as int] == self.items@[i as int].search_spec());
                    assert(texts.take(i + 1).drop_last() =~= texts.take(i as int));
                    assert(texts.take(i + 1).last() == texts[i as int]);
                }
                match score_query(self.query.as_str(), text.as_str()) {
                    Some(sc) => {
                        let x = (i, sc);
                        let mut pos: usize = 0;
                        while pos < sorted.len() && sc <= sorted[pos].1
                            invariant
                                pos <= sorted.len(),
                                forall|k: int|
                                    0 <= k < pos ==> !(sc > (#[trigger] sorted@[k]).1),
                            decreases sorted.len() - pos,
                        {
                            pos += 1;
                        }
                        let ghost prefix = sorted@;
                        sorted.insert(pos, x);
                        proof {
                            lemma_ordered_insert_at(prefix, x, pos as int);
                        }
                    },
                    None => {},
                }
                i += 1;
            }
            proof {
                assert(texts.take(n as int) =~= texts);
            }
            let mut order: Vec<usize> = Vec::new();
            let mut k: usize = 0;
            while k < sorted.len()
                invariant
                    k <= sorted.len(),
                    order@.len() == k,
                    forall|j: int| 0 <= j < k ==> #[trigger] order@[j] == sorted@[j].0,
                decreases sorted.len() - k,
            {
                let idx = sorted[k].0;
                order.push(idx);
                k += 1;
            }
            self.filtered_indices = order;
            proof {
                assert(self.filtered_indices@ =~= scored_of(texts, self.query@).map_values(
                    |p: (usize, u32)| p.0,
                ));
            }
        }
        let len = self.filtered_indices.len();
        if len == 0 {
            self.cursor = None;
        } else {
            match self.cursor {
                Some(c) => {
                    if c >= len {
                        self.cursor = Some(0);
                    }
                },
                None => {
                    self.cursor = Some(0);
                },
            }
        }
        proof {
            if self.query@.len() == 0 {
                lemma_filter_order_identity(texts, self.query@);
            } else {
                lemma_filter_order_props(texts, self.query@);
                assert(order_sound(texts, self.query@, self.order_spec()));
                assert(forall|k: int|
                    0 <= k < self.order_spec().len() ==> (#[trigger] self.order_spec()[k])
                        < self.items_spec().len());
            }
        }
    }

    /// Replaces the candidate set, recomputes the filtered order, and clamps
    /// the cursor.
    pub fn set_items(&mut self, items: Vec<T>)
        requires
            items_scorable(items@),
        ensures
            final(self).items_spec() == items@,
            final(self).query_spec() == old(self).query_spec(),
            final(self).title_spec() == old(self).title_spec(),
            final(self).order_current(),
            final(self).cursor_spec() == clamp_cursor(
                old(self).cursor_spec(),
                final(self).order_spec().len(),
            ),
            final(self).wf(),
            final(self).query_spec().len() != 0 ==> order_sound(
                search_texts(final(self).items_spec()),
                final(self).query_spec(),
                final(self).order_spec(),
            ),
            final(self).query_spec().len() != 0 ==> order_complete(
                search_texts(final(self).items_spec()),
                final(self).query_spec(),
                final(self).order_spec(),
            ),
    {
        self.items = items;
        self.update_filter();
    }

    /// The current query.
    pub fn query(&self) -> (r: &str)
        ensures
            r@ == self.query_spec(),
    {
        self.query.as_str()
    }

    /// Appends one character to the query and recomputes the filtered order.
    pub fn push_char(&mut self, c: char)
        requires
            items_scorable(old(self).items_spec()),
        ensures
            final(self).items_spec() == old(self).items_spec(),
            final(self).query_spec() == old(self).query_spec().push(c),
            final(self).title_spec() == old(self).title_spec(),
            final(self).order_current(),
            final(self).cursor_spec() == clamp_cursor(
                old(self).cursor_spec(),
                final(self).order_spec().len(),
            ),
            final(self).wf(),
            final(self).query_spec().len() != 0 ==> order_sound(
                search_texts(final(self).items_spec()),
                final(self).query_spec(),
                final(self).order_spec(),
            ),
            final(self).query_spec().len() != 0 ==> order_complete(
                search_texts(final(self).items_spec()),
                final(self).query_spec(),
                final(self).order_spec(),
            ),
    {
        push_char(&mut self.query, c);
        self.update_filter();
    }

    /// Removes the last query character (a no-op on an empty query) and
    /// recomputes the filtered order.
    pub fn pop_char(&mut self)
        requires
            items_scorable(old(self).items_spec()),
        ensures
            final(self).items_spec() == old(self).items_spec(),
            final(self).query_spec() == if old(self).query_spec().len() > 0 {
                old(self).query_spec().drop_last()
            } else {
                old(self).query_spec()
            },
            final(self).title_spec() == old(self).title_spec(),
            final(self).order_current(),
            final(self).cursor_spec() == clamp_cursor(
                old(self).cursor_spec(),
                final(self).order_spec().len(),
            ),
            final(self).wf(),
            final(self).query_spec().len() != 0 ==> order_sound(
                search_texts(final(self).items_spec()),
                final(self).query_spec(),
                final(self).order_spec(),
            ),
            final(self).query_spec().len() != 0 ==> order_complete(
                search_texts(final(self).items_spec()),
                final(self).query_spec(),
                final(self).order_spec(),
            ),
    {
        pop_char(&mut self.query);
        self.update_filter();
    }

    /// Discards the query and the cursor, as a freshly shown list: the order
    /// returns to identity and the cursor to the top.
    pub fn reset(&mut self)
        requires
            items_scorable(old(self).items_spec()),
        ensures
            final(self).items_spec() == old(self).items_spec(),
            final(self).query_spec().len() == 0,
            final(self).title_spec() == old(self).title_spec(),
            final(self).order_current(),
            final(self).cursor_spec() == clamp_cursor(
                None::<usize>,
                final(self).order_spec().len(),
            ),
            final(self).wf(),
    {
        self.query = String::new();
        self.cursor = None;
        self.update_filter();
    }

    /// Empties the query and recomputes the filtered order.
    pub fn clear_query(&mut self)
        requires
            items_scorable(old(self).items_spec()),
        ensures
            final(self).items_spec() == old(self).items_spec(),
            final(self).query_spec().len() == 0,
            final(self).title_spec() == old(self).title_spec(),
            final(self).order_current(),
            final(self).cursor_spec() == clamp_cursor(
                old(self).cursor_spec(),
                final(self).order_spec().len(),
            ),
            final(self).wf(),
    {
        self.query = String::new();
        self.update_filter();
    }

    /// Moves the cursor up one entry, wrapping from the first to the last.
    pub fn move_up(&mut self)
        requires
            old(self).wf(),
        ensures
            final(self).items_spec() == old(self).items_spec(),
            final(self).query_spec() == old(self).query_spec(),
            final(self).order_spec() == old(self).order_spec(),
            final(self).title_spec() == old(self).title_spec(),
            final(self).cursor_spec() == match old(self).cursor_spec() {
                None => None::<usize>,
                Some(c) => if c == 0 {
                    Some((old(self).order_spec().len() - 1) as usize)
                } else {
                    Some((c - 1) as usize)
                },
            },
            final(self).wf(),
    {
        let len = self.filtered_indices.len();
        if len == 0 {
            return ;
        }
        match self.cursor {
            Some(c) => {
                let new = if c == 0 {
                    len - 1
                } else {
                    c - 1
                };
                self.cursor = Some(new);
            },
            None => {},
        }
    }

    /// Moves the cursor down one entry, wrapping from the last to the first.
    pub fn move_down(&mut self)
        requires
            old(self).wf(),
        ensures
            final(self).items_spec() == old(self).items_spec(),
            final(self).query_spec() == old(self).query_spec(),
            final(self).order_spec() == old(self).order_spec(),
            final(self).title_spec() == old(self).title_spec(),
            final(self).cursor_spec() == match old(self).cursor_spec() {
                None => None::<usize>,
                Some(c) => if c + 1 == old(self).order_spec().len() {
                    Some(0usize)
                } else {
                    Some((c + 1) as usize)
                },
            },
            final(self).wf(),
    {
        let len = self.filtered_indices.len();
        if len == 0 {
            return ;
        }
        match self.cursor {
            Some(c) => {
                let new = if c >= len - 1 {
                    0
                } else {
                    c + 1
                };
                self.cursor = Some(new);
            },
            None => {},
        }
    }

    /// Moves the cursor up `page_size` entries, stopping at the top.
    pub fn page_up(&mut self, page_size: usize)
        requires
            old(self).wf(),
        ensures
            final(self).items_spec() == old(self).items_spec(),
            final(self).query_spec() == old(self).query_spec(),
            final(self).order_spec() == old(self).order_spec(),
            final(self).title_spec() == old(self).title_spec(),
            final(self).cursor_spec() == match old(self).cursor_spec() {
                None => None::<usize>,
                Some(c) => if c >= page_size {
                    Some((c - page_size) as usize)
                } else {
                    Some(0usize)
                },
            },
            final(self).wf(),
    {
        let len = self.filtered_indices.len();
        if len == 0 {
            return ;
        }
        match self.cursor {
            Some(c) => {
                let new = if c >= page_size {
                    c - page_size
                } else {
                    0
                };
                self.cursor = Some(new);
            },
            None => {},
        }
    }

    /// Moves the cursor down `page_size` entries, stopping at the bottom.
    pub fn page_down(&mut self, page_size: usize)
        requires
            old(self).wf(),
        ensures
            final(self).items_spec() == old(self).items_spec(),
            final(self).query_spec() == old(self).query_spec(),
            final(self).order_spec() == old(self).order_spec(),
            final(self).title_spec() == old(self).title_spec(),
            final(self).cursor_spec() == match old(self).cursor_spec() {
                None => None::<usize>,
                Some(c) => if c + page_size < old(self).order_spec().len() {
                    Some((c + page_size) as usize)
                } else {
                    Some((old(self).order_spec().len() - 1) as usize)
                },
            },
            final(self).wf(),
    {
        let len = self.filtered_indices.len();
        if len == 0 {
            return ;
        }
        match self.cursor {
            Some(c) => {
                let new = if page_size < len - c {
                    c + page_size
                } else {
                    len - 1
                };
                self.cursor = Some(new);
            },
            None => {},
        }
    }

    /// The candidate under the cursor, or nothing when the order is empty.
    pub fn selected(&self) -> (r: Option<&T>)
        requires
            self.wf(),
        ensures
            match self.cursor_spec() {
                None => r is None,
                Some(c) => r matches Some(t) && *t == self.items_spec()[self.order_spec()[c as int] as int],
            },
    {
        match self.cursor {
            Some(c) => {
                let idx = self.filtered_indices[c];
                Some(&self.items[idx])
            },
            None => None,
        }
    }

    /// The position (into the candidate set) under the cursor.
    pub fn selected_index(&self) -> (r: Option<usize>)
        requires
            self.wf(),
        ensures
            match self.cursor_spec() {
                None => r is None,
                Some(c) => r == Some(self.order_spec()[c as int]),
            },
    {
        match self.cursor {
            Some(c) => Some(self.filtered_indices[c]),
            None => None,
        }
    }

    /// How many candidates the filtered order currently holds.
    pub fn filtered_len(&self) -> (r: usize)
        ensures
            r == self.order_spec().len(),
    {
        self.filtered_indices.len()
    }

    /// The position in the candidate set of the filtered entry at `k`.
    pub fn filtered_index_at(&self, k: usize) -> (r: usize)
        requires
            self.wf(),
            k < self.order_spec().len(),
        ensures
            r == self.order_spec()[k as int],
            r < self.items_spec().len(),
    {
        self.filtered_indices[k]
    }

    /// The candidate at position `idx` of the candidate set.
    pub fn item_at(&self, idx: usize) -> (r: &T)
        requires
            idx < self.items_spec().len(),
        ensures
            *r == self.items_spec()[idx as int],
    {
        &self.items[idx]
    }

    /// The cursor into the filtered order.
    pub fn cursor(&self) -> (r: Option<usize>)
        ensures
            r == self.cursor_spec(),
    {
        self.cursor
    }
}

/// Clamping is idempotent.
pub proof fn lemma_clamp_idempotent(cur: Option<usize>, len: nat)
    ensures
        clamp_cursor(clamp_cursor(cur, len), len) == clamp_cursor(cur, len),
{
}

/// Replacing the candidate set twice with identical items yields an identical
/// filtered order and leaves the cursor where the first replacement put it:
/// the order is a function of the query and the items alone, and clamping an
/// already-clamped cursor moves nothing. The premises are exactly what
/// `set_items` ensures of the first state (`l1`) and of the second (`l2`)
/// after a repeated call with the same items.
pub proof fn lemma_set_items_idempotent<T: Searchable>(
    l1: FuzzyList<T>,
    l2: FuzzyList<T>,
    before: Option<usize>,
)
    requires
        l2.items_spec() == l1.items_spec(),
        l2.query_spec() == l1.query_spec(),
        l1.order_current(),
        l2.order_current(),
        l1.cursor_spec() == clamp_cursor(before, l1.order_spec().len()),
        l2.cursor_spec() == clamp_cursor(l1.cursor_spec(), l2.order_spec().len()),
    ensures
        l2.order_spec() == l1.order_spec(),
        l2.cursor_spec() == l1.cursor_spec(),
{
    lemma_clamp_idempotent(before, l1.order_spec().len());
}

} // verus!
