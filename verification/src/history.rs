//! Dictation history: entries, their newest-first order, and the retention
//! limit that appending enforces.
use vstd::prelude::*;
use vstd::seq_lib::to_multiset_insert;
use crate::paths::{ends_with_component, is_joined, is_verbatim, join_path};
use crate::settings::duplicate_option;

verus! {

/// An instant as seconds since the Unix epoch and nanoseconds past that
/// second (above 999,999,999 only inside a leap second).
#[derive(Debug, Clone, Copy, PartialEq, Eq, Structural)]
pub struct EntryTime {
    pub seconds: i64,
    pub nanos: u32,
}

/// `a` is strictly earlier than `b`.
pub open spec fn earlier(a: EntryTime, b: EntryTime) -> bool {
    a.seconds < b.seconds || (a.seconds == b.seconds && a.nanos < b.nanos)
}

pub fn is_earlier(a: EntryTime, b: EntryTime) -> (r: bool)
    ensures
        r == earlier(a, b),
{
    a.seconds < b.seconds || (a.seconds == b.seconds && a.nanos < b.nanos)
}

#[derive(Debug, Clone)]
pub struct HistoryEntry {
    pub id: u128,
    pub created_at: EntryTime,
    pub raw_transcript: String,
    pub final_text: String,
    pub model_id: String,
    pub enhancement_provider: Option<String>,
    pub inserted: bool,
    pub target_app: Option<String>,
}

/// A fresh random entry id, `uuid::Uuid::new_v4()` as its 128-bit value.
///
/// The id is random, so nothing is stated about it.
#[verifier::external_body]
fn random_entry_id() -> u128 {
    uuid::Uuid::new_v4().as_u128()
}

impl HistoryEntry {
    /// A new entry with a random id, created at `created_at` (the time the
    /// caller read from the clock), for no known target app.
    pub fn new(
        raw_transcript: &str,
        final_text: &str,
        model_id: &str,
        enhancement_provider: Option<String>,
        inserted: bool,
        created_at: EntryTime,
    ) -> (e: Self)
        ensures
            e.created_at == created_at,
            e.raw_transcript@ == raw_transcript@,
            e.final_text@ == final_text@,
            e.model_id@ == model_id@,
            e.enhancement_provider == enhancement_provider,
            e.inserted == inserted,
            e.target_app is None,
    {
        HistoryEntry {
            id: random_entry_id(),
            created_at,
            raw_transcript: String::from_str(raw_transcript),
            final_text: String::from_str(final_text),
            model_id: String::from_str(model_id),
            enhancement_provider,
            inserted,
            target_app: None,
        }
    }

    pub fn duplicate(&self) -> (r: Self)
        ensures
            r == *self,
    {
        HistoryEntry {
            id: self.id,
            created_at: self.created_at,
            raw_transcript: self.raw_transcript.clone(),
            final_text: self.final_text.clone(),
            model_id: self.model_id.clone(),
            enhancement_provider: duplicate_option(&self.enhancement_provider),
            inserted: self.inserted,
            target_app: duplicate_option(&self.target_app),
        }
    }
}

/// Where `x` goes in the newest-first sequence `r`: before the first entry
/// strictly older than it.
pub open spec fn insert_position(r: Seq<HistoryEntry>, x: HistoryEntry) -> int
    decreases r.len(),
{
    if r.len() == 0 {
        0
    } else if earlier(r[0].created_at, x.created_at) {
        0
    } else {
        1 + insert_position(r.drop_first(), x)
    }
}

/// `x` placed into the newest-first sequence `r`, after every entry that is
/// not older than it.
pub open spec fn insert_newest_first(r: Seq<HistoryEntry>, x: HistoryEntry) -> Seq<HistoryEntry> {
    r.insert(insert_position(r, x), x)
}

/// `s` ordered newest first; entries created at the same instant keep
/// their relative order (the stable sort that `sort_by` performs).
pub open spec fn newest_first(s: Seq<HistoryEntry>) -> Seq<HistoryEntry>
    decreases s.len(),
{
    if s.len() == 0 {
        s
    } else {
        insert_newest_first(newest_first(s.drop_last()), s.last())
    }
}

/// No entry is newer than the one before it.
pub open spec fn is_newest_first(s: Seq<HistoryEntry>) -> bool {
    forall|i: int, j: int|
        0 <= i < j < s.len() ==> !earlier(#[trigger] s[i].created_at, #[trigger] s[j].created_at)
}

/// The first `n` entries (all of them when there are fewer), as
/// `Vec::truncate` leaves them.
pub open spec fn truncated(s: Seq<HistoryEntry>, n: int) -> Seq<HistoryEntry> {
    if n < s.len() {
        s.take(n)
    } else {
        s
    }
}

/// The stored history as `list` hands it out.
pub open spec fn listed(stored: Seq<HistoryEntry>, limit: int) -> Seq<HistoryEntry> {
    truncated(newest_first(stored), limit)
}

/// The history that appending `entry` to `stored` writes back.
pub open spec fn appended(stored: Seq<HistoryEntry>, entry: HistoryEntry, max_items: usize) -> Seq<
    HistoryEntry,
> {
    let kept = listed(stored, max_items as int + 1);
    truncated(newest_first(seq![entry] + kept), max_items as int)
}

proof fn lemma_insert_position_bounds(r: Seq<HistoryEntry>, x: HistoryEntry)
    ensures
        0 <= insert_position(r, x) <= r.len(),
        forall|k: int| 0 <= k < insert_position(r, x) ==> !earlier(#[trigger] r[k].created_at, x.created_at),
        insert_position(r, x) < r.len() ==> earlier(r[insert_position(r, x)].created_at, x.created_at),
    decreases r.len(),
{
    if r.len() > 0 && !earlier(r[0].created_at, x.created_at) {
        lemma_insert_position_bounds(r.drop_first(), x);
        assert forall|k: int| 0 <= k < insert_position(r, x) implies !earlier(
            #[trigger] r[k].created_at,
            x.created_at,
        ) by {
            if k > 0 {
                assert(r[k] == r.drop_first()[k - 1]);
            }
        }
    }
}

proof fn lemma_earlier_transitive(a: EntryTime, b: EntryTime, c: EntryTime)
    ensures
        earlier(a, b) && earlier(b, c) ==> earlier(a, c),
        !earlier(a, b) && !earlier(b, c) ==> !earlier(a, c),
        earlier(a, b) && !earlier(c, b) ==> earlier(a, c),
        !earlier(b, a) && earlier(b, c) ==> earlier(a, c),
{
}

/// Placing an entry into a newest-first sequence keeps it newest first.
pub proof fn lemma_insert_keeps_order(r: Seq<HistoryEntry>, x: HistoryEntry)
    requires
        is_newest_first(r),
    ensures
        is_newest_first(insert_newest_first(r, x)),
{
    lemma_insert_position_bounds(r, x);
    let p = insert_position(r, x);
    let s = insert_newest_first(r, x);
    r.insert_ensures(p, x);
    assert forall|i: int, j: int| 0 <= i < j < s.len() implies !earlier(
        #[trigger] s[i].created_at,
        #[trigger] s[j].created_at,
    ) by {
        if j < p {
            assert(s[i] == r[i] && s[j] == r[j]);
        } else if j == p {
            assert(s[i] == r[i]);
        } else if i < p {
            assert(s[i] == r[i] && s[j] == r[j - 1]);
            assert(earlier(r[p].created_at, x.created_at));
            assert(!earlier(r[i].created_at, r[p].created_at));
            lemma_earlier_transitive(r[j - 1].created_at, r[p].created_at, x.created_at);
            if p < j - 1 {
                assert(!earlier(r[p].created_at, r[j - 1].created_at));
            }
            lemma_earlier_transitive(r[j - 1].created_at, x.created_at, r[i].created_at);
        } else if i == p {
            assert(s[j] == r[j - 1]);
            if p < j - 1 {
                assert(!earlier(r[p].created_at, r[j - 1].created_at));
            }
            lemma_earlier_transitive(r[j - 1].created_at, r[p].created_at, x.created_at);
        } else {
            assert(s[i] == r[i - 1] && s[j] == r[j - 1]);
        }
    }
}

/// The newest-first order is a permutation ordered newest first.
pub proof fn lemma_newest_first_sorted_permutation(s: Seq<HistoryEntry>)
    ensures
        is_newest_first(newest_first(s)),
        newest_first(s).to_multiset() == s.to_multiset(),
        newest_first(s).len() == s.len(),
    decreases s.len(),
{
    if s.len() > 0 {
        let r = newest_first(s.drop_last());
        lemma_newest_first_sorted_permutation(s.drop_last());
        lemma_insert_keeps_order(r, s.last());
        lemma_insert_position_bounds(r, s.last());
        to_multiset_insert(r, insert_position(r, s.last()), s.last());
        vstd::seq_lib::to_multiset_build(s.drop_last(), s.last());
        assert(s.drop_last().push(s.last()) =~= s);
    }
}

/// When the first entry of `s` is at least as new as every other, it stays
/// first in the newest-first order.
pub proof fn lemma_newest_first_keeps_newest_head(s: Seq<HistoryEntry>)
    requires
        s.len() > 0,
        forall|k: int| 0 <= k < s.len() ==> !earlier(s[0].created_at, #[trigger] s[k].created_at),
    ensures
        newest_first(s).len() > 0,
        newest_first(s)[0] == s[0],
    decreases s.len(),
{
    lemma_newest_first_sorted_permutation(s);
    if s.len() > 1 {
        let t = s.drop_last();
        assert forall|k: int| 0 <= k < t.len() implies !earlier(
            t[0].created_at,
            #[trigger] t[k].created_at,
        ) by {
            assert(t[k] == s[k]);
        }
        lemma_newest_first_keeps_newest_head(t);
        let r = newest_first(t);
        lemma_insert_position_bounds(r, s.last());
        assert(!earlier(r[0].created_at, s.last().created_at));
        assert(insert_position(r, s.last()) > 0);
        r.insert_ensures(insert_position(r, s.last()), s.last());
    } else {
        assert(s.drop_last() =~= Seq::<HistoryEntry>::empty());
        assert(insert_position(Seq::<HistoryEntry>::empty(), s.last()) == 0);
    }
}

/// Every entry listed is a stored entry.
proof fn lemma_listed_from_stored(stored: Seq<HistoryEntry>, limit: int, j: int)
    requires
        0 <= limit,
        0 <= j < listed(stored, limit).len(),
    ensures
        stored.contains(listed(stored, limit)[j]),
{
    let sorted = newest_first(stored);
    lemma_newest_first_sorted_permutation(stored);
    let x = listed(stored, limit)[j];
    assert(sorted[j] == x);
    assert(sorted.contains(x));
    vstd::seq_lib::to_multiset_contains(sorted, x);
    vstd::seq_lib::to_multiset_contains(stored, x);
}

/// Listing hands out at most `limit` stored entries, newest first: the
/// `min(limit, stored.len())` newest ones.
pub proof fn law_listed_newest_first(stored: Seq<HistoryEntry>, limit: usize)
    ensures
        is_newest_first(listed(stored, limit as int)),
        listed(stored, limit as int).len() == if limit < stored.len() {
            limit as int
        } else {
            stored.len() as int
        },
        forall|j: int|
            0 <= j < listed(stored, limit as int).len() ==> stored.contains(
                #[trigger] listed(stored, limit as int)[j],
            ),
{
    lemma_newest_first_sorted_permutation(stored);
    assert forall|j: int| 0 <= j < listed(stored, limit as int).len() implies stored.contains(
        #[trigger] listed(stored, limit as int)[j],
    ) by {
        lemma_listed_from_stored(stored, limit as int, j);
    }
}

/// Appending keeps the history newest first and never longer than
/// `max_items`; it holds the new entry or stored ones only.
pub proof fn law_append_respects_limit(stored: Seq<HistoryEntry>, entry: HistoryEntry, max_items: usize)
    ensures
        is_newest_first(appended(stored, entry, max_items)),
        appended(stored, entry, max_items).len() <= max_items,
        appended(stored, entry, max_items).len() == if stored.len() + 1 < max_items {
            stored.len() + 1int
        } else {
            max_items as int
        },
        forall|j: int|
            0 <= j < appended(stored, entry, max_items).len() ==> (#[trigger] appended(
                stored,
                entry,
                max_items,
            )[j] == entry || stored.contains(appended(stored, entry, max_items)[j])),
{
    let kept = listed(stored, max_items as int + 1);
    let s = seq![entry] + kept;
    lemma_newest_first_sorted_permutation(stored);
    lemma_newest_first_sorted_permutation(s);
    let sorted = newest_first(s);
    assert forall|j: int| 0 <= j < appended(stored, entry, max_items).len() implies (
    #[trigger] appended(stored, entry, max_items)[j] == entry || stored.contains(
        appended(stored, entry, max_items)[j],
    )) by {
        let x = sorted[j];
        assert(appended(stored, entry, max_items)[j] == x);
        assert(sorted.contains(x));
        vstd::seq_lib::to_multiset_contains(sorted, x);
        vstd::seq_lib::to_multiset_contains(s, x);
        let k = choose|k: int| 0 <= k < s.len() && s[k] == x;
        if k > 0 {
            assert(kept[k - 1] == x);
            lemma_listed_from_stored(stored, max_items as int + 1, k - 1);
        }
    }
}

/// An appended entry that is at least as new as every stored entry comes
/// first in the history (unless the limit keeps nothing).
pub proof fn law_append_puts_newest_first(
    stored: Seq<HistoryEntry>,
    entry: HistoryEntry,
    max_items: usize,
)
    requires
        max_items > 0,
        forall|k: int| 0 <= k < stored.len() ==> !earlier(entry.created_at, #[trigger] stored[k].created_at),
    ensures
        appended(stored, entry, max_items).len() > 0,
        appended(stored, entry, max_items)[0] == entry,
{
    let kept = listed(stored, max_items as int + 1);
    let s = seq![entry] + kept;
    assert forall|k: int| 0 <= k < s.len() implies !earlier(s[0].created_at, #[trigger] s[k].created_at) by {
        if k > 0 {
            assert(s[k] == kept[k - 1]);
            lemma_listed_from_stored(stored, max_items as int + 1, k - 1);
            let i = choose|i: int| 0 <= i < stored.len() && stored[i] == kept[k - 1];
            assert(!earlier(entry.created_at, stored[i].created_at));
        }
    }
    lemma_newest_first_keeps_newest_head(s);
}

/// Where `x` goes when it is placed ahead of every entry of `r` that is
/// not newer than it.
pub open spec fn front_position(r: Seq<HistoryEntry>, x: HistoryEntry) -> int
    decreases r.len(),
{
    if r.len() == 0 {
        0
    } else if !earlier(x.created_at, r[0].created_at) {
        0
    } else {
        1 + front_position(r.drop_first(), x)
    }
}

/// `x` placed into `r` after the entries newer than it and ahead of the
/// others.
pub open spec fn insert_in_front(r: Seq<HistoryEntry>, x: HistoryEntry) -> Seq<HistoryEntry> {
    r.insert(front_position(r, x), x)
}

proof fn lemma_insert_position_is(r: Seq<HistoryEntry>, x: HistoryEntry, p: int)
    requires
        0 <= p <= r.len(),
        forall|k: int| 0 <= k < p ==> !earlier(#[trigger] r[k].created_at, x.created_at),
        p < r.len() ==> earlier(r[p].created_at, x.created_at),
    ensures
        insert_position(r, x) == p,
    decreases p,
{
    if p > 0 {
        let t = r.drop_first();
        assert(!earlier(r[0].created_at, x.created_at));
        assert forall|k: int| 0 <= k < p - 1 implies !earlier(#[trigger] t[k].created_at, x.created_at) by {
            assert(t[k] == r[k + 1]);
        }
        if p < r.len() {
            assert(t[p - 1] == r[p]);
        }
        lemma_insert_position_is(t, x, p - 1);
    }
}

proof fn lemma_front_position_is(r: Seq<HistoryEntry>, x: HistoryEntry, q: int)
    requires
        0 <= q <= r.len(),
        forall|k: int| 0 <= k < q ==> earlier(x.created_at, #[trigger] r[k].created_at),
        q < r.len() ==> !earlier(x.created_at, r[q].created_at),
    ensures
        front_position(r, x) == q,
    decreases q,
{
    if q > 0 {
        let t = r.drop_first();
        assert(earlier(x.created_at, r[0].created_at));
        assert forall|k: int| 0 <= k < q - 1 implies earlier(x.created_at, #[trigger] t[k].created_at) by {
            assert(t[k] == r[k + 1]);
        }
        if q < r.len() {
            assert(t[q - 1] == r[q]);
        }
        lemma_front_position_is(t, x, q - 1);
    }
}

proof fn lemma_front_position_bounds(r: Seq<HistoryEntry>, x: HistoryEntry)
    ensures
        0 <= front_position(r, x) <= r.len(),
        forall|k: int| 0 <= k < front_position(r, x) ==> earlier(x.created_at, #[trigger] r[k].created_at),
        front_position(r, x) < r.len() ==> !earlier(x.created_at, r[front_position(r, x)].created_at),
    decreases r.len(),
{
    if r.len() > 0 && earlier(x.created_at, r[0].created_at) {
        lemma_front_position_bounds(r.drop_first(), x);
        assert forall|k: int| 0 <= k < front_position(r, x) implies earlier(
            x.created_at,
            #[trigger] r[k].created_at,
        ) by {
            if k > 0 {
                assert(r[k] == r.drop_first()[k - 1]);
            }
        }
    }
}

/// Two insertions into a sequence, the later one shifted past the earlier.
proof fn lemma_insert_twice<A>(r: Seq<A>, p: int, q: int, x: A, e: A)
    requires
        0 <= p <= q <= r.len(),
    ensures
        r.insert(q, e).insert(p, x) == r.insert(p, x).insert(q + 1, e),
{
    let a = r.insert(q, e);
    let b = r.insert(p, x);
    r.insert_ensures(q, e);
    r.insert_ensures(p, x);
    a.insert_ensures(p, x);
    b.insert_ensures(q + 1, e);
    assert(a.insert(p, x) =~= b.insert(q + 1, e));
}

/// The commuting placements when `x` is newer than `e`.
#[verifier::spinoff_prover]
proof fn lemma_placements_commute_newer(r: Seq<HistoryEntry>, e: HistoryEntry, x: HistoryEntry)
    requires
        earlier(e.created_at, x.created_at),
    ensures
        insert_newest_first(insert_in_front(r, e), x) == insert_in_front(insert_newest_first(r, x), e),
{
    lemma_insert_position_bounds(r, x);
    lemma_front_position_bounds(r, e);
    let p = insert_position(r, x);
    let q = front_position(r, e);
    let re = r.insert(q, e);
    let rx = r.insert(p, x);
    r.insert_ensures(q, e);
    r.insert_ensures(p, x);
    assert forall|k: int| 0 <= k < p implies earlier(e.created_at, #[trigger] r[k].created_at) by {
        assert(!earlier(r[k].created_at, x.created_at));
    }
    assert(p <= q);
    assert forall|k: int| 0 <= k < p implies !earlier(#[trigger] re[k].created_at, x.created_at) by {
        assert(re[k] == r[k]);
    }
    if p < q {
        assert(re[p] == r[p]);
    } else {
        assert(re[p] == e);
    }
    lemma_insert_position_is(re, x, p);
    assert forall|k: int| 0 <= k < q + 1 implies earlier(e.created_at, #[trigger] rx[k].created_at) by {
        if k < p {
            assert(rx[k] == r[k]);
        } else if k == p {
            assert(rx[k] == x);
        } else {
            assert(rx[k] == r[k - 1]);
        }
    }
    if q + 1 < rx.len() {
        assert(rx[q + 1] == r[q]);
    }
    lemma_front_position_is(rx, e, q + 1);
    lemma_insert_twice(r, p, q, x, e);
}

/// The commuting placements when `e` is not older than `x`.
#[verifier::spinoff_prover]
proof fn lemma_placements_commute_not_newer(r: Seq<HistoryEntry>, e: HistoryEntry, x: HistoryEntry)
    requires
        !earlier(e.created_at, x.created_at),
    ensures
        insert_newest_first(insert_in_front(r, e), x) == insert_in_front(insert_newest_first(r, x), e),
{
    lemma_insert_position_bounds(r, x);
    lemma_front_position_bounds(r, e);
    let p = insert_position(r, x);
    let q = front_position(r, e);
    let re = r.insert(q, e);
    let rx = r.insert(p, x);
    r.insert_ensures(q, e);
    r.insert_ensures(p, x);
    assert forall|k: int| 0 <= k < q implies !earlier(#[trigger] r[k].created_at, x.created_at) by {
        assert(earlier(e.created_at, r[k].created_at));
    }
    assert(q <= p);
    assert forall|k: int| 0 <= k < p + 1 implies !earlier(#[trigger] re[k].created_at, x.created_at) by {
        if k < q {
            assert(re[k] == r[k]);
        } else if k == q {
            assert(re[k] == e);
        } else {
            assert(re[k] == r[k - 1]);
        }
    }
    if p + 1 < re.len() {
        assert(re[p + 1] == r[p]);
    }
    lemma_insert_position_is(re, x, p + 1);
    assert forall|k: int| 0 <= k < q implies earlier(e.created_at, #[trigger] rx[k].created_at) by {
        assert(rx[k] == r[k]);
    }
    if q < p {
        assert(rx[q] == r[q]);
    } else {
        assert(rx[q] == x);
    }
    lemma_front_position_is(rx, e, q);
    lemma_insert_twice(r, q, p, e, x);
}

/// Placing `e` ahead and placing `x` after its equals can be done in
/// either order.
proof fn lemma_placements_commute(r: Seq<HistoryEntry>, e: HistoryEntry, x: HistoryEntry)
    ensures
        insert_newest_first(insert_in_front(r, e), x) == insert_in_front(insert_newest_first(r, x), e),
{
    if earlier(e.created_at, x.created_at) {
        lemma_placements_commute_newer(r, e, x);
    } else {
        lemma_placements_commute_not_newer(r, e, x);
    }
}

/// Ordering a sequence that starts with `e` newest first is ordering the
/// rest and placing `e` ahead of the entries not newer than it.
proof fn lemma_newest_first_of_front(e: HistoryEntry, xs: Seq<HistoryEntry>)
    ensures
        newest_first(seq![e] + xs) == insert_in_front(newest_first(xs), e),
    decreases xs.len(),
{
    if xs.len() == 0 {
        assert(seq![e] + xs =~= seq![e]);
        assert(seq![e].drop_last() =~= Seq::<HistoryEntry>::empty());
        assert(newest_first(Seq::<HistoryEntry>::empty()) == Seq::<HistoryEntry>::empty());
        assert(Seq::<HistoryEntry>::empty().insert(0, e) =~= seq![e]);
    } else {
        let s = seq![e] + xs;
        assert(s.drop_last() =~= seq![e] + xs.drop_last());
        assert(s.last() == xs.last());
        lemma_newest_first_of_front(e, xs.drop_last());
        lemma_placements_commute(newest_first(xs.drop_last()), e, xs.last());
    }
}

/// A sequence already newest first is left as it is.
proof fn lemma_newest_first_of_sorted(s: Seq<HistoryEntry>)
    requires
        is_newest_first(s),
    ensures
        newest_first(s) == s,
    decreases s.len(),
{
    if s.len() > 0 {
        let r = s.drop_last();
        assert(is_newest_first(r)) by {
            assert forall|i: int, j: int| 0 <= i < j < r.len() implies !earlier(
                #[trigger] r[i].created_at,
                #[trigger] r[j].created_at,
            ) by {
                assert(r[i] == s[i] && r[j] == s[j]);
            }
        }
        lemma_newest_first_of_sorted(r);
        assert forall|k: int| 0 <= k < r.len() implies !earlier(
            #[trigger] r[k].created_at,
            s.last().created_at,
        ) by {
            assert(r[k] == s[k]);
        }
        lemma_insert_position_is(r, s.last(), r.len() as int);
        assert(r.insert(r.len() as int, s.last()) =~= s);
    }
}

/// Cutting the entries before placing `e` ahead changes nothing among the
/// first `m`, when at least `m + 1` entries are kept.
proof fn lemma_front_placement_truncated(r: Seq<HistoryEntry>, e: HistoryEntry, m: int, n: int)
    requires
        0 <= m < n,
    ensures
        truncated(insert_in_front(r, e), m) == truncated(insert_in_front(truncated(r, n), e), m),
{
    let t = truncated(r, n);
    lemma_front_position_bounds(r, e);
    let q = front_position(r, e);
    r.insert_ensures(q, e);
    if n < r.len() {
        let qt = if q < n { q } else { n };
        assert forall|k: int| 0 <= k < qt implies earlier(e.created_at, #[trigger] t[k].created_at) by {
            assert(t[k] == r[k]);
        }
        if qt < t.len() {
            assert(t[qt] == r[qt]);
        }
        lemma_front_position_is(t, e, qt);
        t.insert_ensures(qt, e);
        assert(truncated(r.insert(q, e), m) =~= truncated(t.insert(qt, e), m));
    }
}

/// What appending writes is the `max_items` newest of the stored entries
/// and the new one, ordered newest first with the new entry ahead of stored
/// entries created at the same instant; listing afterwards reads back what
/// was written (at most `limit` of it).
pub proof fn law_append_then_list(
    stored: Seq<HistoryEntry>,
    entry: HistoryEntry,
    max_items: usize,
    limit: usize,
)
    ensures
        appended(stored, entry, max_items) == truncated(
            newest_first(seq![entry] + stored),
            max_items as int,
        ),
        listed(appended(stored, entry, max_items), limit as int) == truncated(
            appended(stored, entry, max_items),
            limit as int,
        ),
{
    let m = max_items as int;
    let sorted = newest_first(stored);
    let kept = listed(stored, m + 1);
    lemma_newest_first_sorted_permutation(stored);
    assert(is_newest_first(kept)) by {
        assert forall|i: int, j: int| 0 <= i < j < kept.len() implies !earlier(
            #[trigger] kept[i].created_at,
            #[trigger] kept[j].created_at,
        ) by {
            assert(kept[i] == sorted[i] && kept[j] == sorted[j]);
        }
    }
    lemma_newest_first_of_sorted(kept);
    lemma_newest_first_of_front(entry, kept);
    lemma_newest_first_of_front(entry, stored);
    lemma_front_placement_truncated(sorted, entry, m, m + 1);
    law_append_respects_limit(stored, entry, max_items);
    lemma_newest_first_of_sorted(appended(stored, entry, max_items));
}

/// The entries ordered newest first.
pub fn sort_newest_first(entries: &Vec<HistoryEntry>) -> (res: Vec<HistoryEntry>)
    ensures
        res@ == newest_first(entries@),
{
    let mut res: Vec<HistoryEntry> = Vec::new();
    let mut i: usize = 0;
    while i < entries.len()
        invariant
            i <= entries.len(),
            res@ == newest_first(entries@.take(i as int)),
        decreases entries.len() - i,
    {
        let x = entries[i].duplicate();
        let ghost r = res@;
        let mut p: usize = 0;
        assert(r.skip(0) =~= r);
        while p < res.len() && !is_earlier(res[p].created_at, x.created_at)
            invariant
                res@ == r,
                p <= res.len(),
                insert_position(r, x) == p + insert_position(r.skip(p as int), x),
            decreases res.len() - p,
        {
            assert(r.skip(p as int).drop_first() =~= r.skip(p + 1));
            p = p + 1;
        }
        assert(insert_position(r.skip(p as int), x) == 0);
        res.insert(p, x);
        assert(entries@.take(i + 1).drop_last() =~= entries@.take(i as int));
        assert(entries@.take(i + 1).last() == entries@[i as int]);
        assert(res@ =~= r.insert(p as int, x));
        i = i + 1;
    }
    assert(entries@.take(entries.len() as int) =~= entries@);
    res
}

/// `entries` cut down to at most `n`.
pub fn truncate_entries(entries: &mut Vec<HistoryEntry>, n: usize)
    ensures
        final(entries)@ == truncated(old(entries)@, n as int),
{
    if n < entries.len() {
        entries.truncate(n);
        assert(entries@ =~= truncated(old(entries)@, n as int));
    }
}

/// Where the history file of a data directory lives, and the retention
/// rules of the entries it holds.
#[derive(Debug, Clone)]
pub struct HistoryStore {
    path: String,
}

impl HistoryStore {
    pub closed spec fn spec_path(&self) -> Seq<char> {
        self.path@
    }

    /// The store for `history.json` inside `data_dir`.
    pub fn new(data_dir: &str) -> (store: Self)
        ensures
            ends_with_component(store.spec_path(), "history.json"@),
            !is_verbatim(data_dir@) ==> is_joined(store.spec_path(), data_dir@, "history.json"@),
    {
        proof {
            reveal_strlit("history.json");
            let s = "history.json"@;
            assert(s.len() == 12);
            assert(s != seq!['.']);
            assert(s != seq!['.', '.']);
            assert forall|i: int| 0 <= i < s.len() implies {
                let c = #[trigger] s[i];
                c != '/' && c != '\\' && c != ':'
            } by {}
        }
        HistoryStore { path: join_path(data_dir, "history.json") }
    }

    pub fn path(&self) -> (p: &str)
        ensures
            p@ == self.spec_path(),
    {
        self.path.as_str()
    }

    /// The stored entries as listing hands them out: newest first, at most
    /// `limit` of them.
    pub fn newest(stored: &Vec<HistoryEntry>, limit: usize) -> (res: Vec<HistoryEntry>)
        ensures
            res@ == listed(stored@, limit as int),
    {
        let mut entries = sort_newest_first(stored);
        truncate_entries(&mut entries, limit);
        entries
    }

    /// The entries that appending `entry` writes back: the newest
    /// `max_items + 1` stored entries with `entry` in front, ordered newest
    /// first, cut to `max_items`.
    pub fn with_appended(stored: &Vec<HistoryEntry>, entry: HistoryEntry, max_items: usize) -> (res:
        Vec<HistoryEntry>)
        ensures
            res@ == appended(stored@, entry, max_items),
    {
        let mut entries = HistoryStore::newest(stored, max_items.saturating_add(1));
        let ghost kept = entries@;
        entries.insert(0, entry);
        assert(entries@ =~= seq![entry] + kept);
        let mut sorted = sort_newest_first(&entries);
        truncate_entries(&mut sorted, max_items);
        sorted
    }
}

} // verus!
