//! Pane-local composer history and fuzzy recall.
//!
//! History is product state owned by the Pane composer: a bounded list of
//! commands the Runtime accepted from this Pane's composer. Ranking is
//! synchronous over at most `HISTORY_CAPACITY` entries.

use std::collections::VecDeque;

use vstd::prelude::*;

use crate::text::{
    chars_of, copy_string, is_prefix, is_subsequence, is_subsequence_exec, lemma_trim_end_last,
    some_token_has_prefix,
    some_token_has_prefix_exec, spec_is_whitespace, spec_to_lowercase, starts_with_chars,
    to_lowercase, trim_end, trim_end_str, without_whitespace, without_whitespace_exec,
};

verus! {

broadcast use vstd::std_specs::vecdeque::group_vec_dequeue_axioms;

/// Upper bound of retained entries per Pane. Oldest entries are evicted.
pub const HISTORY_CAPACITY: usize = 200;

/// Maximum rows projected to the host for one filter result.
pub const HISTORY_VISIBLE_ROWS: usize = 8;

/// One accepted composer submission. `seq` is a Pane-local recency ordinal.
#[derive(Clone, Debug, PartialEq, Eq)]
pub struct HistoryEntry {
    pub command: String,
    pub seq: u64,
}

/// Abstract history entry: the command characters and the recency ordinal.
pub type EntryModel = (Seq<char>, u64);

impl HistoryEntry {
    /// A field-for-field copy.
    pub fn duplicate(&self) -> (r: Self)
        ensures
            r@ == self@,
    {
        HistoryEntry { command: copy_string(&self.command), seq: self.seq }
    }
}

impl View for HistoryEntry {
    type V = EntryModel;

    open spec fn view(&self) -> EntryModel {
        (self.command@, self.seq)
    }
}

/// Abstract Pane history: entries oldest first, and the last ordinal handed out.
pub struct HistoryModel {
    pub entries: Seq<EntryModel>,
    pub next_seq: u64,
}

/// Bounded, recency-ordered command history for one Pane.
#[derive(Clone, Debug)]
pub struct PaneHistory {
    entries: VecDeque<HistoryEntry>,
    next_seq: u64,
}

/// Retained history is bounded, holds no blank or whitespace-terminated
/// command, and never holds the same command twice in a row. Entries stand
/// in submission order: every ordinal is positive and at most the last one
/// handed out, and ordinals increase from oldest to newest (strictly, until
/// the ordinal saturates at `u64::MAX`).
pub open spec fn history_wf(m: HistoryModel) -> bool {
    &&& m.entries.len() <= HISTORY_CAPACITY
    &&& forall|i: int|
        0 <= i < m.entries.len() ==> 0 < (#[trigger] m.entries[i]).1 <= m.next_seq
    &&& forall|i: int, j: int|
        0 <= i < j < m.entries.len() ==> (#[trigger] m.entries[i]).1 < (
        #[trigger] m.entries[j]).1 || m.entries[j].1 == u64::MAX
    &&& forall|i: int|
        0 <= i < m.entries.len() ==> (#[trigger] m.entries[i]).0.len() > 0
            && !spec_is_whitespace(m.entries[i].0.last())
    &&& forall|i: int, j: int|
        0 <= i && j == i + 1 && j < m.entries.len() ==> (#[trigger] m.entries[i]).0 != (
        #[trigger] m.entries[j]).0
}

/// The recency ordinal after one more submission (saturating).
pub open spec fn next_ordinal(seq: u64) -> u64 {
    if seq == u64::MAX { seq } else { (seq + 1) as u64 }
}

/// What recording `command` does: trailing whitespace is dropped, a blank
/// command is ignored, a repeat of the newest entry only refreshes its
/// ordinal, and at capacity the oldest entry is evicted.
pub open spec fn spec_record(m: HistoryModel, command: Seq<char>) -> HistoryModel {
    let c = trim_end(command);
    if c.len() == 0 {
        m
    } else {
        let seq = next_ordinal(m.next_seq);
        let n = m.entries.len();
        let entries = if n > 0 && m.entries[n - 1].0 == c {
            m.entries.update(n - 1, (c, seq))
        } else if n == HISTORY_CAPACITY {
            m.entries.drop_first().push((c, seq))
        } else {
            m.entries.push((c, seq))
        };
        HistoryModel { entries, next_seq: seq }
    }
}

/// Match strength. Lower sorts first.
#[derive(Clone, Copy, Debug, PartialEq, Eq, Structural)]
pub enum MatchClass {
    Empty,
    Prefix,
    TokenPrefix,
    Subsequence,
}

/// Sort position of a match class.
pub open spec fn class_rank(c: MatchClass) -> int {
    match c {
        MatchClass::Empty => 0,
        MatchClass::Prefix => 1,
        MatchClass::TokenPrefix => 2,
        MatchClass::Subsequence => 3,
    }
}

fn class_rank_exec(c: MatchClass) -> (r: u8)
    ensures
        r == class_rank(c),
{
    match c {
        MatchClass::Empty => 0,
        MatchClass::Prefix => 1,
        MatchClass::TokenPrefix => 2,
        MatchClass::Subsequence => 3,
    }
}

/// How `command` matches `query`, compared case-insensitively: an empty query
/// matches everything; then a prefix of the command, a prefix of one of its
/// whitespace-separated tokens, or the query's non-blank characters in order.
pub open spec fn spec_classify(query: Seq<char>, command: Seq<char>) -> Option<MatchClass> {
    if query.len() == 0 {
        Some(MatchClass::Empty)
    } else {
        let ql = spec_to_lowercase(query);
        let cl = spec_to_lowercase(command);
        if is_prefix(ql, cl) {
            Some(MatchClass::Prefix)
        } else if some_token_has_prefix(cl, ql) {
            Some(MatchClass::TokenPrefix)
        } else if is_subsequence(without_whitespace(ql), cl) {
            Some(MatchClass::Subsequence)
        } else {
            None
        }
    }
}

/// A matching entry with its class.
pub type Scored = (MatchClass, EntryModel);

/// The matching entries of `entries`, in order, with their classes.
pub open spec fn spec_scored(entries: Seq<EntryModel>, query: Seq<char>) -> Seq<Scored>
    decreases entries.len(),
{
    if entries.len() == 0 {
        Seq::empty()
    } else {
        let prev = spec_scored(entries.drop_last(), query);
        match spec_classify(query, entries.last().0) {
            Some(c) => prev.push((c, entries.last())),
            None => prev,
        }
    }
}

/// `a` sorts strictly after `b`: weaker class, or same class and older.
pub open spec fn sorts_after(a: Scored, b: Scored) -> bool {
    class_rank(a.0) > class_rank(b.0) || (class_rank(a.0) == class_rank(b.0) && a.1.1 < b.1.1)
}

/// Insert `x` after every element that does not sort after it.
pub open spec fn insert_scored(s: Seq<Scored>, x: Scored) -> Seq<Scored>
    decreases s.len(),
{
    if s.len() == 0 {
        seq![x]
    } else if sorts_after(s.last(), x) {
        insert_scored(s.drop_last(), x).push(s.last())
    } else {
        s.push(x)
    }
}

/// Stable sort by class, then newest first.
pub open spec fn sort_scored(s: Seq<Scored>) -> Seq<Scored>
    decreases s.len(),
{
    if s.len() == 0 {
        s
    } else {
        insert_scored(sort_scored(s.drop_last()), s.last())
    }
}

/// The ranked rows for `query`: the matching entries in stable order of class
/// and then recency, bounded to `HISTORY_VISIBLE_ROWS`.
pub open spec fn spec_rank(entries: Seq<EntryModel>, query: Seq<char>) -> Seq<EntryModel> {
    let sorted = sort_scored(spec_scored(entries, query));
    let n = if sorted.len() < HISTORY_VISIBLE_ROWS {
        sorted.len() as int
    } else {
        HISTORY_VISIBLE_ROWS as int
    };
    sorted.take(n).map_values(|x: Scored| x.1)
}

/// Scored entries stand in ranking order: no entry sorts after a later one.
pub open spec fn sorted_scored(s: Seq<Scored>) -> bool {
    forall|i: int, j: int| 0 <= i < j < s.len() ==> !sorts_after(#[trigger] s[i], #[trigger] s[j])
}

/// Inserting into a sorted list keeps it sorted and adds exactly `x`.
proof fn lemma_insert_scored(s: Seq<Scored>, x: Scored)
    requires
        sorted_scored(s),
    ensures
        sorted_scored(insert_scored(s, x)),
        insert_scored(s, x).to_multiset() == s.to_multiset().insert(x),
    decreases s.len(),
{
    broadcast use vstd::seq_lib::group_to_multiset_ensures, vstd::multiset::group_multiset_axioms;

    if s.len() == 0 {
        assert(s =~= Seq::<Scored>::empty());
        assert(seq![x] =~= s.push(x));
    } else {
        let d = s.drop_last();
        let l = s.last();
        assert(s =~= d.push(l));
        if sorts_after(l, x) {
            assert forall|i: int, j: int| 0 <= i < j < d.len() implies !sorts_after(
                #[trigger] d[i],
                #[trigger] d[j],
            ) by {
                assert(d[i] == s[i] && d[j] == s[j]);
            }
            lemma_insert_scored(d, x);
            let r = insert_scored(d, x);
            assert forall|i: int| 0 <= i < r.len() implies !sorts_after(#[trigger] r[i], l) by {
                assert(r.contains(r[i]));
                assert(r.to_multiset().count(r[i]) > 0);
                if r[i] != x {
                    assert(d.to_multiset().insert(x).count(r[i]) == d.to_multiset().count(r[i]));
                    assert(d.to_multiset().count(r[i]) > 0);
                    assert(d.contains(r[i]));
                    let k = choose|k: int| 0 <= k < d.len() && d[k] == r[i];
                    assert(s[k] == d[k]);
                    assert(s[s.len() - 1] == l);
                }
            }
            let out = r.push(l);
            assert forall|i: int, j: int| 0 <= i < j < out.len() implies !sorts_after(
                #[trigger] out[i],
                #[trigger] out[j],
            ) by {
                assert(out[i] == r[i]);
                if j < r.len() {
                    assert(out[j] == r[j]);
                }
            }
            assert(out.to_multiset() =~= s.to_multiset().insert(x));
        } else {
            let out = s.push(x);
            assert forall|i: int, j: int| 0 <= i < j < out.len() implies !sorts_after(
                #[trigger] out[i],
                #[trigger] out[j],
            ) by {
                assert(out[i] == s[i]);
                if j < s.len() {
                    assert(out[j] == s[j]);
                } else if i < s.len() - 1 {
                    assert(!sorts_after(s[i], s[s.len() - 1]));
                }
            }
        }
    }
}

/// Sorting yields a sorted list holding exactly the scored entries.
proof fn lemma_sort_scored(s: Seq<Scored>)
    ensures
        sorted_scored(sort_scored(s)),
        sort_scored(s).to_multiset() == s.to_multiset(),
    decreases s.len(),
{
    broadcast use vstd::seq_lib::group_to_multiset_ensures;

    if s.len() > 0 {
        lemma_sort_scored(s.drop_last());
        lemma_insert_scored(sort_scored(s.drop_last()), s.last());
        assert(s =~= s.drop_last().push(s.last()));
    }
}

/// The scored list holds, in history order, each entry that matches the
/// query together with its class, and nothing else.
proof fn lemma_scored_members(entries: Seq<EntryModel>, query: Seq<char>)
    ensures
        forall|x: Scored|
            #[trigger] spec_scored(entries, query).contains(x) <==> entries.contains(x.1)
                && spec_classify(query, x.1.0) == Some(x.0),
    decreases entries.len(),
{
    broadcast use vstd::seq_lib::group_seq_properties;

    if entries.len() > 0 {
        let d = entries.drop_last();
        let l = entries.last();
        let prev = spec_scored(d, query);
        lemma_scored_members(d, query);
        assert(entries =~= d.push(l));
        assert forall|x: Scored| #[trigger] spec_scored(entries, query).contains(x) <==> entries.contains(
            x.1,
        ) && spec_classify(query, x.1.0) == Some(x.0) by {
            assert(entries.contains(x.1) <==> (x.1 == l || d.contains(x.1)));
            match spec_classify(query, l.0) {
                Some(c) => {
                    assert(spec_scored(entries, query) == prev.push((c, l)));
                    if x.1 == l && spec_classify(query, x.1.0) == Some(x.0) {
                        assert(x == (c, l));
                    }
                },
                None => {
                    assert(spec_scored(entries, query) == prev);
                },
            }
        }
    }
}

/// Ranking returns, newest first within each match class and the classes in
/// order, the first `HISTORY_VISIBLE_ROWS` of the entries that match the
/// query: the scored entries are exactly the matching entries with their
/// classes, and the order they are cut from is sorted and holds each of them
/// exactly as often as the history does.
pub proof fn rank_orders_matching_entries(entries: Seq<EntryModel>, query: Seq<char>)
    ensures
        forall|x: Scored|
            #[trigger] spec_scored(entries, query).contains(x) <==> entries.contains(x.1)
                && spec_classify(query, x.1.0) == Some(x.0),
        sorted_scored(sort_scored(spec_scored(entries, query))),
        sort_scored(spec_scored(entries, query)).to_multiset() == spec_scored(
            entries,
            query,
        ).to_multiset(),
        spec_rank(entries, query) == sort_scored(spec_scored(entries, query)).take(
            if spec_scored(entries, query).len() < HISTORY_VISIBLE_ROWS {
                spec_scored(entries, query).len() as int
            } else {
                HISTORY_VISIBLE_ROWS as int
            },
        ).map_values(|x: Scored| x.1),
{
    broadcast use vstd::seq_lib::group_to_multiset_ensures;

    lemma_scored_members(entries, query);
    lemma_sort_scored(spec_scored(entries, query));
    assert(sort_scored(spec_scored(entries, query)).len() == spec_scored(entries, query).len()) by {
        assert(sort_scored(spec_scored(entries, query)).to_multiset().len() == sort_scored(
            spec_scored(entries, query),
        ).len());
        assert(spec_scored(entries, query).to_multiset().len() == spec_scored(entries, query).len());
    }
}

/// Ranking matches case-insensitively: the query and each command are
/// lower-cased before matching. Every ranked row is an entry of the history
/// whose lower-cased command starts with the lower-cased query, has a token
/// that does, or holds the query's non-blank characters in order (any entry
/// for an empty query). For a non-empty query every entry whose lower-cased
/// command starts with the lower-cased query is a Prefix match, and while
/// fewer rows than the limit come back each such entry is among them.
pub proof fn rank_matches_case_insensitively(entries: Seq<EntryModel>, query: Seq<char>)
    ensures
        forall|i: int|
            0 <= i < spec_rank(entries, query).len() ==> {
                let e = #[trigger] spec_rank(entries, query)[i];
                let ql = spec_to_lowercase(query);
                let cl = spec_to_lowercase(e.0);
                &&& entries.contains(e)
                &&& (query.len() == 0 || is_prefix(ql, cl) || some_token_has_prefix(cl, ql)
                    || is_subsequence(without_whitespace(ql), cl))
            },
        query.len() > 0 ==> forall|e: EntryModel|
            entries.contains(e) && is_prefix(spec_to_lowercase(query), spec_to_lowercase(e.0))
                ==> #[trigger] spec_scored(entries, query).contains((MatchClass::Prefix, e)),
        query.len() > 0 ==> forall|e: EntryModel|
            entries.contains(e) && !is_prefix(spec_to_lowercase(query), spec_to_lowercase(e.0))
                && some_token_has_prefix(spec_to_lowercase(e.0), spec_to_lowercase(query))
                ==> #[trigger] spec_scored(entries, query).contains((MatchClass::TokenPrefix, e)),
        query.len() > 0 ==> forall|e: EntryModel|
            entries.contains(e) && !is_prefix(spec_to_lowercase(query), spec_to_lowercase(e.0))
                && !some_token_has_prefix(spec_to_lowercase(e.0), spec_to_lowercase(query))
                && is_subsequence(
                without_whitespace(spec_to_lowercase(query)),
                spec_to_lowercase(e.0),
            ) ==> #[trigger] spec_scored(entries, query).contains((MatchClass::Subsequence, e)),
        spec_rank(entries, query).len() < HISTORY_VISIBLE_ROWS ==> forall|e: EntryModel|
            entries.contains(e) && is_prefix(spec_to_lowercase(query), spec_to_lowercase(e.0))
                ==> #[trigger] spec_rank(entries, query).contains(e),
{
    broadcast use vstd::seq_lib::group_to_multiset_ensures;

    rank_orders_matching_entries(entries, query);
    let scored = spec_scored(entries, query);
    let sorted = sort_scored(scored);
    let n: int = if scored.len() < HISTORY_VISIBLE_ROWS {
        scored.len() as int
    } else {
        HISTORY_VISIBLE_ROWS as int
    };
    let r = spec_rank(entries, query);
    assert(sorted.len() == scored.len()) by {
        assert(sorted.to_multiset().len() == sorted.len());
        assert(scored.to_multiset().len() == scored.len());
    }
    assert(r.len() == n);
    assert forall|i: int| 0 <= i < r.len() implies {
        let e = #[trigger] r[i];
        let ql = spec_to_lowercase(query);
        let cl = spec_to_lowercase(e.0);
        &&& entries.contains(e)
        &&& (query.len() == 0 || is_prefix(ql, cl) || some_token_has_prefix(cl, ql)
            || is_subsequence(without_whitespace(ql), cl))
    } by {
        assert(r[i] == sorted[i].1);
        assert(sorted.contains(sorted[i]));
        assert(sorted.to_multiset().count(sorted[i]) > 0);
        assert(scored.contains(sorted[i]));
    }
    if query.len() > 0 {
        assert forall|e: EntryModel|
            entries.contains(e) && is_prefix(spec_to_lowercase(query), spec_to_lowercase(e.0))
                implies #[trigger] scored.contains((MatchClass::Prefix, e)) by {
            assert(spec_classify(query, e.0) == Some(MatchClass::Prefix));
        }
        assert forall|e: EntryModel|
            entries.contains(e) && !is_prefix(spec_to_lowercase(query), spec_to_lowercase(e.0))
                && some_token_has_prefix(spec_to_lowercase(e.0), spec_to_lowercase(query))
                implies #[trigger] scored.contains((MatchClass::TokenPrefix, e)) by {
            assert(spec_classify(query, e.0) == Some(MatchClass::TokenPrefix));
        }
        assert forall|e: EntryModel|
            entries.contains(e) && !is_prefix(spec_to_lowercase(query), spec_to_lowercase(e.0))
                && !some_token_has_prefix(spec_to_lowercase(e.0), spec_to_lowercase(query))
                && is_subsequence(without_whitespace(spec_to_lowercase(query)), spec_to_lowercase(e.0))
                implies #[trigger] scored.contains((MatchClass::Subsequence, e)) by {
            assert(spec_classify(query, e.0) == Some(MatchClass::Subsequence));
        }
    }
    if r.len() < HISTORY_VISIBLE_ROWS {
        assert forall|e: EntryModel|
            entries.contains(e) && is_prefix(spec_to_lowercase(query), spec_to_lowercase(e.0))
                implies #[trigger] r.contains(e) by {
            let c = if query.len() == 0 {
                MatchClass::Empty
            } else {
                MatchClass::Prefix
            };
            assert(spec_classify(query, e.0) == Some(c));
            assert(scored.contains((c, e)));
            assert(scored.to_multiset().count((c, e)) > 0);
            assert(sorted.contains((c, e)));
            let m = choose|m: int| 0 <= m < sorted.len() && sorted[m] == (c, e);
            assert(r[m] == e);
        }
    }
}

/// Scored index pairs read against `ents`.
pub open spec fn scored_seq(ents: Seq<EntryModel>, s: Seq<(MatchClass, usize)>) -> Seq<Scored> {
    s.map_values(|x: (MatchClass, usize)| (x.0, ents[x.1 as int]))
}

proof fn lemma_insert_at(s: Seq<Scored>, x: Scored, p: int)
    requires
        0 <= p <= s.len(),
        forall|j: int| p <= j < s.len() ==> sorts_after(#[trigger] s[j], x),
        p == 0 || !sorts_after(s[p - 1], x),
    ensures
        insert_scored(s, x) == s.insert(p, x),
    decreases s.len(),
{
    if s.len() == p {
        if s.len() == 0 {
            assert(s.insert(p, x) =~= seq![x]);
        } else {
            assert(s.insert(p, x) =~= s.push(x));
        }
    } else {
        assert(sorts_after(s[s.len() - 1], x));
        let d = s.drop_last();
        assert forall|j: int| p <= j < d.len() implies sorts_after(#[trigger] d[j], x) by {
            assert(d[j] == s[j]);
        }
        lemma_insert_at(d, x, p);
        assert(s.insert(p, x) =~= d.insert(p, x).push(s.last()));
    }
}

fn classify(query: &str, command: &str) -> (r: Option<MatchClass>)
    ensures
        r == spec_classify(query@, command@),
{
    if query.is_empty() {
        return Some(MatchClass::Empty);
    }
    let query_lower = to_lowercase(query);
    let command_lower = to_lowercase(command);
    let q = chars_of(query_lower.as_str());
    let c = chars_of(command_lower.as_str());
    if starts_with_chars(c.as_slice(), q.as_slice()) {
        return Some(MatchClass::Prefix);
    }
    if some_token_has_prefix_exec(c.as_slice(), q.as_slice()) {
        return Some(MatchClass::TokenPrefix);
    }
    let needle = without_whitespace_exec(q.as_slice());
    if is_subsequence_exec(needle.as_slice(), c.as_slice()) {
        return Some(MatchClass::Subsequence);
    }
    None
}

impl View for PaneHistory {
    type V = HistoryModel;

    closed spec fn view(&self) -> HistoryModel {
        HistoryModel {
            entries: self.entries@.map_values(|e: HistoryEntry| e@),
            next_seq: self.next_seq,
        }
    }
}

impl Default for PaneHistory {
    fn default() -> (r: Self)
        ensures
            r@.entries.len() == 0,
            r@.next_seq == 0,
            r.wf(),
    {
        let r = PaneHistory { entries: VecDeque::new(), next_seq: 0 };
        assert(r@.entries =~= Seq::<EntryModel>::empty());
        r
    }
}

impl PaneHistory {
    /// The history invariant holds.
    pub open spec fn wf(&self) -> bool {
        history_wf(self@)
    }

    /// Number of retained entries.
    pub fn len(&self) -> (r: usize)
        ensures
            r == self@.entries.len(),
    {
        proof {
            assert(self.entries@.len() == self@.entries.len());
        }
        self.entries.len()
    }

    /// Record an accepted submission. A command equal to the most recent
    /// entry only refreshes its recency instead of duplicating it.
    pub fn record(&mut self, command: &str)
        requires
            old(self).wf(),
        ensures
            final(self).wf(),
            final(self)@ == spec_record(old(self)@, command@),
    {
        proof {
            lemma_trim_end_last(command@);
        }
        let command = trim_end_str(command);
        if command.as_str().is_empty() {
            return;
        }
        let ghost m = self@;
        let ghost c = command@;
        let ghost seq = next_ordinal(m.next_seq);
        let ghost old_entries = self.entries@;
        self.next_seq = self.next_seq.saturating_add(1);
        let n = self.entries.len();
        if n > 0 && self.entries[n - 1].command == command {
            let back = self.entries.pop_back();
            match back {
                Some(mut entry) => {
                    entry.seq = self.next_seq;
                    self.entries.push_back(entry);
                    assert(self.entries@ =~= old_entries.update(n - 1, entry));
                    assert(self@.entries =~= m.entries.update(n - 1, (c, seq)));
                    assert forall|k: int| 0 <= k < self@.entries.len() implies (
                    #[trigger] self@.entries[k]).0 == m.entries[k].0 by {}
                    assert forall|a: int, b: int|
                        0 <= a && b == a + 1 && b < self@.entries.len() implies (
                    #[trigger] self@.entries[a]).0 != (#[trigger] self@.entries[b]).0 by {
                        assert(m.entries[a].0 != m.entries[b].0);
                    }
                },
                None => {},
            }
            return;
        }
        if n == HISTORY_CAPACITY {
            let _ = self.entries.pop_front();
        }
        let ghost before = self.entries@;
        self.entries.push_back(HistoryEntry { command, seq: self.next_seq });
        proof {
            if n == HISTORY_CAPACITY {
                assert(before =~= old_entries.drop_first());
                assert(self@.entries =~= m.entries.drop_first().push((c, seq)));
            } else {
                assert(self@.entries =~= m.entries.push((c, seq)));
            }
        }
    }

    /// Whether the scored entry `prev` sorts after an entry of class rank
    /// `rank` and ordinal `seq`.
    fn ranks_after(&self, prev: (MatchClass, usize), rank: u8, seq: u64) -> (r: bool)
        requires
            prev.1 < self.entries@.len(),
        ensures
            r == (class_rank(prev.0) > rank || (class_rank(prev.0) == rank
                && self.entries@[prev.1 as int].seq < seq)),
    {
        let prev_rank = class_rank_exec(prev.0);
        prev_rank > rank || (prev_rank == rank && self.entries[prev.1].seq < seq)
    }

    /// Rank entries for `query`, most relevant first, bounded to
    /// `HISTORY_VISIBLE_ROWS`. An empty query returns the most recent
    /// entries in recency order.
    pub fn rank(&self, query: &str) -> (r: Vec<HistoryEntry>)
        ensures
            r@.map_values(|e: HistoryEntry| e@) == spec_rank(self@.entries, query@),
    {
        let ghost ents = self@.entries;
        let mut scored: Vec<(MatchClass, usize)> = Vec::new();
        let mut i: usize = 0;
        let len = self.entries.len();
        assert(self.entries@.len() == ents.len());
        while i < len
            invariant
                len == ents.len(),
                ents == self@.entries,
                ents == self.entries@.map_values(|e: HistoryEntry| e@),
                0 <= i <= len,
                forall|k: int| 0 <= k < scored@.len() ==> (#[trigger] scored@[k]).1 < i,
                scored_seq(ents, scored@) == sort_scored(
                    spec_scored(ents.subrange(0, i as int), query@),
                ),
            decreases len - i,
        {
            let ghost prefix = ents.subrange(0, i as int);
            let ghost next = ents.subrange(0, i + 1);
            assert(next.drop_last() =~= prefix);
            assert(next.last() == ents[i as int]);
            let entry = &self.entries[i];
            assert(entry@ == ents[i as int]);
            let class = classify(query, entry.command.as_str());
            let ghost prev_sorted = sort_scored(spec_scored(prefix, query@));
            match class {
                Some(c) => {
                    let ghost sv = scored_seq(ents, scored@);
                    let ghost x: Scored = (c, ents[i as int]);
                    assert(spec_scored(next, query@) == spec_scored(prefix, query@).push(x));
                    assert(spec_scored(next, query@).drop_last() =~= spec_scored(prefix, query@));
                    assert(sort_scored(spec_scored(next, query@)) == insert_scored(prev_sorted, x));
                    let rank = class_rank_exec(c);
                    let seq = entry.seq;
                    let mut p: usize = scored.len();
                    while p > 0 && self.ranks_after(scored[p - 1], rank, seq)
                        invariant
                            0 <= p <= scored@.len(),
                            sv == scored_seq(ents, scored@),
                            x == (c, ents[i as int]),
                            rank == class_rank(c),
                            seq == ents[i as int].1,
                            len == ents.len(),
                            ents == self.entries@.map_values(|e: HistoryEntry| e@),
                            forall|k: int| 0 <= k < scored@.len() ==> (#[trigger] scored@[k]).1 < i,
                            i < len,
                            forall|j: int| p <= j < sv.len() ==> sorts_after(#[trigger] sv[j], x),
                        decreases p,
                    {
                        let ghost idx = scored@[p - 1].1;
                        assert(sv[p - 1] == (scored@[p - 1].0, ents[idx as int]));
                        assert(ents[idx as int] == self.entries@[idx as int]@);
                        p = p - 1;
                    }
                    proof {
                        if p > 0 {
                            let idx = scored@[p - 1].1;
                            assert(sv[p - 1] == (scored@[p - 1].0, ents[idx as int]));
                            assert(ents[idx as int] == self.entries@[idx as int]@);
                        }
                        lemma_insert_at(sv, x, p as int);
                    }
                    scored.insert(p, (c, i));
                    assert(scored_seq(ents, scored@) =~= sv.insert(p as int, x));
                },
                None => {
                    assert(spec_scored(next, query@) == spec_scored(prefix, query@));
                },
            }
            i = i + 1;
        }
        assert(ents.subrange(0, len as int) =~= ents);
        let mut out: Vec<HistoryEntry> = Vec::new();
        let mut k: usize = 0;
        let ghost sorted = sort_scored(spec_scored(ents, query@));
        while k < scored.len() && k < HISTORY_VISIBLE_ROWS
            invariant
                0 <= k <= scored@.len(),
                k <= HISTORY_VISIBLE_ROWS,
                len == ents.len(),
                ents == self.entries@.map_values(|e: HistoryEntry| e@),
                forall|t: int| 0 <= t < scored@.len() ==> (#[trigger] scored@[t]).1 < len,
                scored_seq(ents, scored@) == sorted,
                out@.len() == k,
                forall|t: int| 0 <= t < k ==> (#[trigger] out@[t])@ == sorted[t].1,
            decreases scored@.len() - k,
        {
            let idx = scored[k].1;
            let entry = self.entries[idx].duplicate();
            assert(sorted[k as int] == (scored@[k as int].0, ents[idx as int]));
            assert(ents[idx as int] == self.entries@[idx as int]@);
            out.push(entry);
            k = k + 1;
        }
        assert(out@.map_values(|e: HistoryEntry| e@) =~= spec_rank(ents, query@));
        out
    }
}

/// Open helper surface anchored above one Pane composer.
#[derive(Clone, Debug, PartialEq, Eq)]
pub struct HistoryOverlay {
    pub query: String,
    pub selected: usize,
}

impl Default for HistoryOverlay {
    fn default() -> (r: Self)
        ensures
            r.query@.len() == 0,
            r.selected == 0,
    {
        HistoryOverlay { query: String::new(), selected: 0 }
    }
}

/// `v` clamped into `[lo, hi]`.
pub open spec fn clamp_int(v: int, lo: int, hi: int) -> int {
    if v < lo {
        lo
    } else if v > hi {
        hi
    } else {
        v
    }
}

impl HistoryOverlay {
    /// Clamp the selection to the current result count. Zero rows keep
    /// selection at zero so a later non-empty result starts at the top.
    pub fn clamp(&mut self, row_count: usize)
        ensures
            final(self).query == old(self).query,
            final(self).selected == if row_count == 0 {
                0
            } else if old(self).selected >= row_count {
                (row_count - 1) as usize
            } else {
                old(self).selected
            },
            row_count > 0 ==> final(self).selected < row_count,
    {
        if row_count == 0 {
            self.selected = 0;
        } else if self.selected >= row_count {
            self.selected = row_count - 1;
        }
    }

    /// Move the selection by `delta`, clamped to the rows.
    pub fn step(&mut self, delta: i32, row_count: usize)
        ensures
            final(self).query == old(self).query,
            final(self).selected == if row_count == 0 {
                0
            } else {
                clamp_int(old(self).selected + delta, 0, row_count - 1)
            },
            row_count > 0 ==> final(self).selected < row_count,
    {
        if row_count == 0 {
            self.selected = 0;
            return;
        }
        let last = (row_count - 1) as i128;
        let next = self.selected as i128 + delta as i128;
        let clamped = if next < 0 {
            0
        } else if next > last {
            last
        } else {
            next
        };
        self.selected = clamped as usize;
    }
}

/// Read-only host projection of an open overlay.
#[derive(Clone, Debug, PartialEq, Eq)]
pub struct HistoryOverlaySnapshot {
    pub query: String,
    pub rows: Vec<String>,
    pub selected: usize,
}

} // verus!
