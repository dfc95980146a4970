//! The message table of a document window: a sorted ordering over the
//! messages, a filtered subset of that ordering, and the selection; plus the
//! search bar it is filtered by.

use crate::dbc::MessageOverride;
use crate::text::{
    contains_seq, lemma_lex_leq_total, lemma_lex_leq_trans, lex_leq, lower_of, str_contains,
    str_leq, to_lowercase,
};
use vstd::prelude::*;

verus! {

/// Which way a table column is sorted.
#[derive(Clone, Copy, Debug, PartialEq, Eq, Structural)]
pub enum SortDirection {
    Ascending,
    Descending,
}

/// The table's order between two message positions under one column:
/// identifier, name, or byte length; a descending direction turns the
/// comparison around.
pub open spec fn msg_leq(
    messages: Seq<MessageOverride>,
    column: int,
    direction: SortDirection,
    a: int,
    b: int,
) -> bool {
    let x = if direction is Ascending {
        a
    } else {
        b
    };
    let y = if direction is Ascending {
        b
    } else {
        a
    };
    if column == 0 {
        messages[x].message_id <= messages[y].message_id
    } else if column == 1 {
        lex_leq(messages[x].message_name@, messages[y].message_name@)
    } else {
        messages[x].message_size <= messages[y].message_size
    }
}

/// `msg_leq` is total: one of the two orders always holds.
pub proof fn lemma_msg_leq_total(
    messages: Seq<MessageOverride>,
    column: int,
    direction: SortDirection,
    a: int,
    b: int,
)
    requires
        0 <= a < messages.len(),
        0 <= b < messages.len(),
    ensures
        msg_leq(messages, column, direction, a, b) || msg_leq(messages, column, direction, b, a),
{
    if column == 1 {
        lemma_lex_leq_total(messages[a].message_name@, messages[b].message_name@);
    }
}

/// `msg_leq` is transitive.
pub proof fn lemma_msg_leq_trans(
    messages: Seq<MessageOverride>,
    column: int,
    direction: SortDirection,
    a: int,
    b: int,
    c: int,
)
    requires
        msg_leq(messages, column, direction, a, b),
        msg_leq(messages, column, direction, b, c),
    ensures
        msg_leq(messages, column, direction, a, c),
{
    if column == 1 {
        if direction is Ascending {
            lemma_lex_leq_trans(
                messages[a].message_name@,
                messages[b].message_name@,
                messages[c].message_name@,
            );
        } else {
            lemma_lex_leq_trans(
                messages[c].message_name@,
                messages[b].message_name@,
                messages[a].message_name@,
            );
        }
    }
}

/// Decides `msg_leq`.
fn msg_leq_exec(
    messages: &Vec<MessageOverride>,
    column: usize,
    direction: SortDirection,
    a: usize,
    b: usize,
) -> (r: bool)
    requires
        a < messages@.len(),
        b < messages@.len(),
    ensures
        r == msg_leq(messages@, column as int, direction, a as int, b as int),
{
    let (x, y) = match direction {
        SortDirection::Ascending => (a, b),
        SortDirection::Descending => (b, a),
    };
    if column == 0 {
        messages[x].message_id <= messages[y].message_id
    } else if column == 1 {
        str_leq(messages[x].message_name.as_str(), messages[y].message_name.as_str())
    } else {
        messages[x].message_size <= messages[y].message_size
    }
}

/// Whether a position list is ordered under one column and direction.
pub open spec fn sorted_by(
    s: Seq<usize>,
    messages: Seq<MessageOverride>,
    column: int,
    direction: SortDirection,
) -> bool {
    forall|i: int, j: int|
        0 <= i < j < s.len() ==> msg_leq(
            messages,
            column,
            direction,
            #[trigger] s[i] as int,
            #[trigger] s[j] as int,
        )
}

/// Inserting a fresh element keeps a list free of repeats, and the elements
/// are the old ones plus the new one.
proof fn lemma_insert_elements(s: Seq<usize>, i: int, x: usize)
    requires
        0 <= i <= s.len(),
    ensures
        forall|y: usize| #[trigger] s.insert(i, x).contains(y) <==> (s.contains(y) || y == x),
        s.no_duplicates() && !s.contains(x) ==> s.insert(i, x).no_duplicates(),
{
    let t = s.insert(i, x);
    assert forall|y: usize| t.contains(y) implies (s.contains(y) || y == x) by {
        let k = choose|k: int| 0 <= k < t.len() && t[k] == y;
        if k < i {
            assert(s[k] == y);
        } else if k > i {
            assert(s[k - 1] == y);
        }
    }
    assert forall|y: usize| (s.contains(y) || y == x) implies t.contains(y) by {
        if y == x {
            assert(t[i] == y);
        } else {
            let k = choose|k: int| 0 <= k < s.len() && s[k] == y;
            if k < i {
                assert(t[k] == y);
            } else {
                assert(t[k + 1] == y);
            }
        }
    }
    if s.no_duplicates() && !s.contains(x) {
        assert forall|p: int, q: int| 0 <= p < q < t.len() implies t[p] != t[q] by {
            if q < i {
            } else if p < i && q == i {
                assert(s.contains(t[p]));
            } else if p < i && q > i {
                assert(t[p] == s[p] && t[q] == s[q - 1]);
            } else if p == i {
                assert(s.contains(t[q]));
            } else {
                assert(t[p] == s[p - 1] && t[q] == s[q - 1]);
            }
        }
    }
}

/// Sorts a list of message positions under one column and direction. The
/// result holds the same positions; equal keys keep their relative order.
#[verifier::loop_isolation(false)]
fn sort_indices(
    v: Vec<usize>,
    messages: &Vec<MessageOverride>,
    column: usize,
    direction: SortDirection,
) -> (r: Vec<usize>)
    requires
        forall|k: int| 0 <= k < v@.len() ==> #[trigger] v@[k] < messages@.len(),
    ensures
        r@.len() == v@.len(),
        forall|x: usize| r@.contains(x) <==> v@.contains(x),
        v@.no_duplicates() ==> r@.no_duplicates(),
        forall|k: int| 0 <= k < r@.len() ==> #[trigger] r@[k] < messages@.len(),
        sorted_by(r@, messages@, column as int, direction),
{
    let mut out: Vec<usize> = Vec::new();
    let mut i: usize = 0;
    while i < v.len()
        invariant
            i <= v@.len(),
            out@.len() == i,
            forall|x: usize| out@.contains(x) <==> v@.take(i as int).contains(x),
            v@.no_duplicates() ==> out@.no_duplicates(),
            forall|k: int| 0 <= k < out@.len() ==> #[trigger] out@[k] < messages@.len(),
            sorted_by(out@, messages@, column as int, direction),
        decreases v@.len() - i,
    {
        let e = v[i];
        let mut pos: usize = 0;
        while pos < out.len() && msg_leq_exec(messages, column, direction, out[pos], e)
            invariant
                pos <= out@.len(),
                forall|q: int|
                    0 <= q < pos ==> msg_leq(
                        messages@,
                        column as int,
                        direction,
                        #[trigger] out@[q] as int,
                        e as int,
                    ),
            decreases out@.len() - pos,
        {
            pos = pos + 1;
        }
        let ghost old_out = out@;
        proof {
            lemma_insert_elements(out@, pos as int, e);
            if pos < out@.len() {
                lemma_msg_leq_total(messages@, column as int, direction, out@[pos as int] as int, e as int);
            }
            if v@.no_duplicates() {
                assert(!out@.contains(e)) by {
                    assert(v@.take(i as int).contains(e) ==> exists|k: int|
                        0 <= k < i && v@.take(i as int)[k] == e);
                    if v@.take(i as int).contains(e) {
                        let k = choose|k: int| 0 <= k < i && v@.take(i as int)[k] == e;
                        assert(v@[k] == e && v@[i as int] == e);
                    }
                }
            }
        }
        out.insert(pos, e);
        proof {
            assert(v@.take(i + 1).drop_last() =~= v@.take(i as int));
            assert(out@ == old_out.insert(pos as int, e));
            assert forall|x: usize| out@.contains(x) <==> v@.take(i + 1).contains(x) by {
                assert(out@.contains(x) <==> (old_out.contains(x) || x == e));
                assert(v@.take(i + 1)[i as int] == e);
                if v@.take(i + 1).contains(x) && x != e {
                    let k = choose|k: int| 0 <= k < i + 1 && #[trigger] v@.take(i + 1)[k] == x;
                    if k < i {
                        assert(v@.take(i as int)[k] == x);
                    }
                }
                if v@.take(i as int).contains(x) {
                    let k = choose|k: int| 0 <= k < i && #[trigger] v@.take(i as int)[k] == x;
                    assert(v@.take(i + 1)[k] == x);
                }
            }
            assert forall|p: int, q: int| 0 <= p < q < out@.len() implies msg_leq(
                messages@,
                column as int,
                direction,
                out@[p] as int,
                out@[q] as int,
            ) by {
                if q < pos {
                } else if p < pos && q == pos {
                } else if p < pos && q > pos {
                    assert(out@[p] == old_out[p] && out@[q] == old_out[q - 1]);
                } else if p == pos && q > pos {
                    assert(out@[q] == old_out[q - 1]);
                    if pos < old_out.len() {
                        if q - 1 > pos as int {
                            lemma_msg_leq_trans(
                                messages@,
                                column as int,
                                direction,
                                e as int,
                                old_out[pos as int] as int,
                                old_out[q - 1] as int,
                            );
                        }
                    }
                } else {
                    assert(out@[p] == old_out[p - 1] && out@[q] == old_out[q - 1]);
                }
            }
        }
        i = i + 1;
    }
    proof {
        assert(v@.take(i as int) =~= v@);
    }
    out
}

/// The positions of `s` whose message name contains the lowercased query,
/// case-insensitively, order kept; positions out of range drop out.
pub open spec fn filtered_positions(
    s: Seq<usize>,
    messages: Seq<MessageOverride>,
    q: Seq<char>,
) -> Seq<usize>
    decreases s.len(),
{
    if s.len() == 0 {
        Seq::empty()
    } else {
        let rest = filtered_positions(s.drop_last(), messages, q);
        if s.last() < messages.len() && contains_seq(
            lower_of(messages[s.last() as int].message_name@),
            q,
        ) {
            rest.push(s.last())
        } else {
            rest
        }
    }
}

/// The message table: an ordering over all messages, the filtered part of it
/// that is shown, and the selected positions. All three hold positions into
/// the message list they were last computed against.
#[derive(Debug)]
pub struct MessageTable {
    sorted_indicies: Vec<usize>,
    filtered_indicies: Vec<usize>,
    selected_indicies: Vec<usize>,
}

impl MessageTable {
    /// The current ordering over all messages.
    pub closed spec fn sorted_seq(&self) -> Seq<usize> {
        self.sorted_indicies@
    }

    /// The positions shown after filtering.
    pub closed spec fn filtered_seq(&self) -> Seq<usize> {
        self.filtered_indicies@
    }

    /// The selected positions.
    pub closed spec fn selected_seq(&self) -> Seq<usize> {
        self.selected_indicies@
    }

    /// Validity: no position is selected twice.
    pub open spec fn wf(&self) -> bool {
        self.selected_seq().no_duplicates()
    }

    /// Whether every held position lies inside a message list of the given
    /// length.
    pub open spec fn in_range(&self, n: int) -> bool {
        &&& forall|k: int| 0 <= k < self.sorted_seq().len() ==> #[trigger] self.sorted_seq()[k] < n
        &&& forall|k: int|
            0 <= k < self.filtered_seq().len() ==> #[trigger] self.filtered_seq()[k] < n
    }

    /// An empty table.
    pub fn new() -> (r: Self)
        ensures
            r.wf(),
            r.sorted_seq() == Seq::<usize>::empty(),
            r.filtered_seq() == Seq::<usize>::empty(),
            r.selected_seq() == Seq::<usize>::empty(),
    {
        let r = MessageTable {
            sorted_indicies: Vec::new(),
            filtered_indicies: Vec::new(),
            selected_indicies: Vec::new(),
        };
        proof {
            assert(r.sorted_seq() =~= Seq::<usize>::empty());
        }
        r
    }

    /// The positions shown after filtering, in order.
    pub fn filtered_indicies(&self) -> (r: &Vec<usize>)
        ensures
            r@ == self.filtered_seq(),
    {
        &self.filtered_indicies
    }

    /// Recomputes the shown positions: the ordered positions whose message
    /// name contains the query, case-insensitively; an empty query shows the
    /// whole ordering.
    #[verifier::loop_isolation(false)]
    pub fn update_filter(&mut self, query: &str, messages: &Vec<MessageOverride>)
        requires
            old(self).in_range(messages@.len() as int),
        ensures
            final(self).sorted_seq() == old(self).sorted_seq(),
            final(self).selected_seq() == old(self).selected_seq(),
            final(self).wf() == old(self).wf(),
            final(self).in_range(messages@.len() as int),
            query@.len() == 0 ==> final(self).filtered_seq() == old(self).sorted_seq(),
            query@.len() != 0 ==> final(self).filtered_seq() == filtered_positions(
                old(self).sorted_seq(),
                messages@,
                lower_of(query@),
            ),
    {
        if query.is_empty() {
            self.filtered_indicies = clone_positions(&self.sorted_indicies);
            proof {
                assert forall|k: int|
                    0 <= k < self.filtered_seq().len() implies #[trigger] self.filtered_seq()[k]
                    < messages@.len() by {
                    assert(old(self).sorted_seq()[k] < messages@.len());
                }
            }
            return ;
        }
        let query_lower = to_lowercase(query);
        let ghost src = self.sorted_indicies@;
        let ghost q = lower_of(query@);
        proof {
            assert forall|k: int| 0 <= k < src.len() implies #[trigger] src[k] < messages@.len() by {
                assert(old(self).sorted_seq()[k] < messages@.len());
            }
        }
        let mut out: Vec<usize> = Vec::new();
        let mut i: usize = 0;
        while i < self.sorted_indicies.len()
            invariant
                i <= src.len(),
                src == self.sorted_indicies@,
                q == query_lower@,
                forall|k: int| 0 <= k < src.len() ==> #[trigger] src[k] < messages@.len(),
                out@ == filtered_positions(src.take(i as int), messages@, q),
            decreases src.len() - i,
        {
            let idx = self.sorted_indicies[i];
            let ghost prev = out@;
            let lowered = to_lowercase(messages[idx].message_name.as_str());
            if str_contains(lowered.as_str(), query_lower.as_str()) {
                out.push(idx);
                proof {
                    assert(out@.drop_last() =~= prev);
                }
            }
            proof {
                assert(src.take(i + 1).drop_last() =~= src.take(i as int));
                assert(src.take(i + 1).last() == src[i as int]);
            }
            i = i + 1;
        }
        proof {
            assert(src.take(i as int) =~= src);
        }
        self.filtered_indicies = out;
        proof {
            lemma_filtered_in_range(src, messages@, q);
        }
    }

    /// Reorders the table under one column and direction: the full ordering
    /// becomes the sorted positions of every message, and the shown positions
    /// are re-sorted the same way, keeping their membership. A column beyond
    /// the sortable three leaves the lists as the plain enumeration and the
    /// previous shown positions.
    pub fn update_sort(
        &mut self,
        idx: usize,
        sort_direction: SortDirection,
        messages: &Vec<MessageOverride>,
    )
        requires
            old(self).in_range(messages@.len() as int),
        ensures
            final(self).selected_seq() == old(self).selected_seq(),
            final(self).wf() == old(self).wf(),
            final(self).in_range(messages@.len() as int),
            final(self).sorted_seq().len() == messages@.len(),
            final(self).sorted_seq().no_duplicates(),
            forall|x: usize|
                final(self).sorted_seq().contains(x) <==> (x as int) < messages@.len(),
            final(self).filtered_seq().len() == old(self).filtered_seq().len(),
            forall|x: usize|
                final(self).filtered_seq().contains(x) <==> old(self).filtered_seq().contains(x),
            idx <= 2 ==> sorted_by(final(self).sorted_seq(), messages@, idx as int, sort_direction),
            idx <= 2 ==> sorted_by(
                final(self).filtered_seq(),
                messages@,
                idx as int,
                sort_direction,
            ),
    {
        let base = enumerate_positions(messages.len());
        if idx <= 2 {
            self.sorted_indicies = sort_indices(base, messages, idx, sort_direction);
            let mut filtered: Vec<usize> = Vec::new();
            core::mem::swap(&mut filtered, &mut self.filtered_indicies);
            proof {
                assert forall|k: int| 0 <= k < filtered@.len() implies #[trigger] filtered@[k]
                    < messages@.len() by {
                    assert(old(self).filtered_seq()[k] < messages@.len());
                }
            }
            self.filtered_indicies = sort_indices(filtered, messages, idx, sort_direction);
            proof {
                assert(forall|x: usize|
                    self.filtered_indicies@.contains(x) <==> old(self).filtered_seq().contains(x));
            }
        } else {
            self.sorted_indicies = base;
            proof {
                assert forall|k: int|
                    0 <= k < self.filtered_seq().len() implies #[trigger] self.filtered_seq()[k]
                    < messages@.len() by {
                    assert(old(self).filtered_seq()[k] < messages@.len());
                }
            }
        }
    }

    /// Sorts ascending by identifier and filters afresh, clearing the
    /// selection: the state a newly shown table starts from.
    pub fn init_sort_and_filter(&mut self, query: &str, messages: &Vec<MessageOverride>)
        requires
            old(self).in_range(messages@.len() as int),
        ensures
            final(self).wf(),
            final(self).in_range(messages@.len() as int),
            final(self).selected_seq() == Seq::<usize>::empty(),
            sorted_by(final(self).sorted_seq(), messages@, 0, SortDirection::Ascending),
            query@.len() == 0 ==> final(self).filtered_seq() == final(self).sorted_seq(),
            query@.len() != 0 ==> final(self).filtered_seq() == filtered_positions(
                final(self).sorted_seq(),
                messages@,
                lower_of(query@),
            ),
    {
        self.update_sort(0, SortDirection::Ascending, messages);
        self.update_filter(query, messages);
        self.selected_indicies = Vec::new();
        proof {
            assert(self.selected_seq() =~= Seq::<usize>::empty());
        }
    }

    /// Selects exactly one position.
    pub fn select_index(&mut self, index: usize)
        ensures
            final(self).selected_seq() == seq![index],
            final(self).sorted_seq() == old(self).sorted_seq(),
            final(self).filtered_seq() == old(self).filtered_seq(),
            final(self).wf(),
    {
        self.selected_indicies = Vec::new();
        self.selected_indicies.push(index);
        proof {
            assert(self.selected_seq() =~= seq![index]);
        }
    }

    /// Toggles one position in the selection: a selected position leaves it,
    /// an unselected one joins it.
    pub fn ctrl_select_index(&mut self, index: usize)
        requires
            old(self).wf(),
        ensures
            final(self).wf(),
            final(self).sorted_seq() == old(self).sorted_seq(),
            final(self).filtered_seq() == old(self).filtered_seq(),
            old(self).selected_seq().contains(index) ==> !final(self).selected_seq().contains(
                index,
            ) && forall|x: usize|
                x != index ==> (final(self).selected_seq().contains(x) <==> old(
                    self,
                ).selected_seq().contains(x)),
            !old(self).selected_seq().contains(index) ==> final(self).selected_seq() == old(
                self,
            ).selected_seq().push(index),
    {
        match position_of(&self.selected_indicies, index) {
            Some(i) => {
                let ghost old_sel = self.selected_indicies@;
                self.selected_indicies.remove(i);
                proof {
                    assert(self.selected_indicies@ =~= old_sel.remove(i as int));
                    assert forall|x: usize| self.selected_indicies@.contains(x) implies old_sel
                        .contains(x) by {
                        let k = choose|k: int|
                            0 <= k < self.selected_indicies@.len() && self.selected_indicies@[k]
                                == x;
                        if k < i {
                            assert(old_sel[k] == x);
                        } else {
                            assert(old_sel[k + 1] == x);
                        }
                    }
                    assert forall|x: usize| old_sel.contains(x) && x != index implies self
                        .selected_indicies@.contains(x) by {
                        let k = choose|k: int| 0 <= k < old_sel.len() && old_sel[k] == x;
                        assert(k != i);
                        if k < i {
                            assert(self.selected_indicies@[k] == x);
                        } else {
                            assert(self.selected_indicies@[k - 1] == x);
                        }
                    }
                    assert(self.selected_indicies@.no_duplicates()) by {
                        assert forall|p: int, q: int|
                            0 <= p < q < self.selected_indicies@.len() implies self
                            .selected_indicies@[p] != self.selected_indicies@[q] by {
                            let pp = if p < i { p } else { p + 1 };
                            let qq = if q < i { q } else { q + 1 };
                            assert(self.selected_indicies@[p] == old_sel[pp]);
                            assert(self.selected_indicies@[q] == old_sel[qq]);
                        }
                    }
                    assert(!self.selected_indicies@.contains(index)) by {
                        if self.selected_indicies@.contains(index) {
                            let k = choose|k: int|
                                0 <= k < self.selected_indicies@.len()
                                    && self.selected_indicies@[k] == index;
                            if k < i {
                                assert(old_sel[k] == index && old_sel[i as int] == index);
                            } else {
                                assert(old_sel[k + 1] == index && old_sel[i as int] == index);
                            }
                        }
                    }
                }
            },
            None => {
                let ghost old_sel = self.selected_indicies@;
                self.selected_indicies.push(index);
                proof {
                    assert(self.selected_indicies@.drop_last() =~= old_sel);
                    assert(self.selected_indicies@.no_duplicates());
                }
            },
        }
    }

    /// Makes a position the selection unless it already belongs to it, as a
    /// context click does.
    pub fn right_select_index(&mut self, index: usize)
        requires
            old(self).wf(),
        ensures
            final(self).wf(),
            final(self).sorted_seq() == old(self).sorted_seq(),
            final(self).filtered_seq() == old(self).filtered_seq(),
            old(self).selected_seq().contains(index) ==> final(self).selected_seq() == old(
                self,
            ).selected_seq(),
            !old(self).selected_seq().contains(index) ==> final(self).selected_seq() == seq![
                index,
            ],
    {
        match position_of(&self.selected_indicies, index) {
            Some(_) => {},
            None => {
                self.select_index(index);
            },
        }
    }
}

impl Default for MessageTable {
    fn default() -> (r: Self)
        ensures
            r.wf(),
            r.sorted_seq() == Seq::<usize>::empty(),
            r.filtered_seq() == Seq::<usize>::empty(),
            r.selected_seq() == Seq::<usize>::empty(),
    {
        MessageTable::new()
    }
}

/// Finds one position in a list.
fn position_of(v: &Vec<usize>, x: usize) -> (r: Option<usize>)
    ensures
        match r {
            Some(i) => i < v@.len() && v@[i as int] == x,
            None => !v@.contains(x),
        },
{
    let mut i: usize = 0;
    while i < v.len()
        invariant
            i <= v@.len(),
            forall|j: int| 0 <= j < i ==> v@[j] != x,
        decreases v@.len() - i,
    {
        if v[i] == x {
            return Some(i);
        }
        i = i + 1;
    }
    None
}

/// Copies a position list.
fn clone_positions(v: &Vec<usize>) -> (r: Vec<usize>)
    ensures
        r@ == v@,
{
    let mut r: Vec<usize> = Vec::new();
    let mut i: usize = 0;
    while i < v.len()
        invariant
            i <= v@.len(),
            r@ == v@.take(i as int),
        decreases v@.len() - i,
    {
        r.push(v[i]);
        proof {
            assert(v@.take(i + 1).drop_last() =~= v@.take(i as int));
            assert(r@.drop_last() =~= v@.take(i as int));
        }
        i = i + 1;
    }
    proof {
        assert(v@.take(i as int) =~= v@);
    }
    r
}

/// The positions `0, 1, ...` up to a length.
fn enumerate_positions(n: usize) -> (r: Vec<usize>)
    ensures
        r@.len() == n,
        forall|k: int| 0 <= k < n ==> #[trigger] r@[k] == k,
        r@.no_duplicates(),
        forall|x: usize| r@.contains(x) <==> (x as int) < n,
{
    let mut r: Vec<usize> = Vec::new();
    let mut i: usize = 0;
    while i < n
        invariant
            i <= n,
            r@.len() == i,
            forall|k: int| 0 <= k < i ==> #[trigger] r@[k] == k,
        decreases n - i,
    {
        r.push(i);
        i = i + 1;
    }
    proof {
        assert forall|x: usize| r@.contains(x) <==> (x as int) < n by {
            if (x as int) < n {
                assert(r@[x as int] == x);
            }
        }
    }
    r
}

/// Positions kept by the filter lie in range of the message list.
proof fn lemma_filtered_in_range(s: Seq<usize>, messages: Seq<MessageOverride>, q: Seq<char>)
    ensures
        forall|k: int|
            0 <= k < filtered_positions(s, messages, q).len() ==> #[trigger] filtered_positions(
                s,
                messages,
                q,
            )[k] < messages.len(),
    decreases s.len(),
{
    if s.len() > 0 {
        lemma_filtered_in_range(s.drop_last(), messages, q);
        let rest = filtered_positions(s.drop_last(), messages, q);
        let whole = filtered_positions(s, messages, q);
        assert forall|k: int| 0 <= k < whole.len() implies whole[k] < messages.len() by {
            if k < rest.len() {
                assert(whole[k] == rest[k]);
            }
        }
    }
}

/// The search bar above the table: the query text it holds.
#[derive(Debug)]
pub struct DbcSearchBar {
    pub query: String,
}

impl DbcSearchBar {
    /// The query to filter by.
    pub fn query(&self) -> (r: &str)
        ensures
            r@ == self.query@,
    {
        self.query.as_str()
    }
}

impl Default for DbcSearchBar {
    fn default() -> (r: Self)
        ensures
            r.query@.len() == 0,
    {
        DbcSearchBar { query: String::new() }
    }
}

} // verus!
