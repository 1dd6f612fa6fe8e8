//! The audit journal: an append-only sequence of records, replayed with tolerance for
//! damaged lines, listed newest first in pages.

use crate::text::blank;
use crate::text::is_blank;
use crate::timestamp::instant_later;
use crate::timestamp::instant_of;
use crate::timestamp::Timestamp;
use crate::wire::AuditEntryJson;
use crate::wire::AuditListResponse;
use crate::queue::lemma_filter_push;
use std::path::PathBuf;
use vstd::prelude::*;
use vstd::string::*;

verus! {

/// The number of entries on a page where the caller names none.
pub const DEFAULT_PAGE_SIZE: u32 = 50;

/// The greatest number of entries on a page.
pub const MAX_PAGE_SIZE: u32 = 100;

/// What replay made of one line of the journal that was not blank.
#[derive(Debug)]
pub enum JournalRecord {
    /// The line held an entry.
    Entry(AuditEntryJson),
    /// The line could not be decoded; the decoder's message says why.
    Malformed(String),
}

/// The entries among `records`, in the order of the journal; damaged lines are passed over.
pub open spec fn survivors(records: Seq<JournalRecord>) -> Seq<AuditEntryJson>
    decreases records.len(),
{
    if records.len() == 0 {
        Seq::empty()
    } else {
        let before = survivors(records.drop_last());
        match records.last() {
            JournalRecord::Entry(e) => before.push(e),
            JournalRecord::Malformed(_) => before,
        }
    }
}

/// The instant at which `e` was created; `None` where its timestamp cannot be read.
pub open spec fn age_of(e: AuditEntryJson) -> Option<(i64, u32)> {
    instant_of(e.created_at@)
}

/// Whether a listing puts an entry created at `a` before one created at `b` whatever their
/// places in the journal: `a` is the later instant, or `a` can be read and `b` cannot.
pub open spec fn comes_first(a: Option<(i64, u32)>, b: Option<(i64, u32)>) -> bool {
    match a {
        Some(x) => match b {
            Some(y) => instant_later(x, y),
            None => true,
        },
        None => false,
    }
}

/// Whether `a` is newer than `b`: it was created at a later instant. An entry whose
/// timestamp cannot be read counts as older than every entry whose timestamp can.
pub open spec fn newer(a: AuditEntryJson, b: AuditEntryJson) -> bool {
    comes_first(age_of(a), age_of(b))
}

/// Where `e` goes among `sorted`, looking from `i` on: before the first entry that is older
/// than `e`, and so behind every entry of its own age.
pub open spec fn slot_from(sorted: Seq<AuditEntryJson>, e: AuditEntryJson, i: int) -> int
    decreases sorted.len() - i,
{
    if i < 0 || i >= sorted.len() {
        sorted.len() as int
    } else if newer(e, sorted[i]) {
        i
    } else {
        slot_from(sorted, e, i + 1)
    }
}

/// `entries` in the order of a listing: newest first by the instants that their timestamps
/// spell, entries of one instant in the order in which the journal holds them, and entries
/// whose timestamp cannot be read behind all others, in that order too.
pub open spec fn newest_first(entries: Seq<AuditEntryJson>) -> Seq<AuditEntryJson>
    decreases entries.len(),
{
    if entries.len() == 0 {
        entries
    } else {
        let before = newest_first(entries.drop_last());
        before.insert(slot_from(before, entries.last(), 0), entries.last())
    }
}

/// The number of entries that a page holds at most: the limit asked for, 50 where none is,
/// and never more than 100.
pub open spec fn page_limit(limit: Option<u32>) -> int {
    let asked = match limit {
        Some(l) => l as int,
        None => DEFAULT_PAGE_SIZE as int,
    };
    if asked < MAX_PAGE_SIZE {
        asked
    } else {
        MAX_PAGE_SIZE as int
    }
}

/// The position at which a page begins: the cursor, 0 where none is given.
pub open spec fn page_start(cursor: Option<u32>) -> int {
    match cursor {
        Some(c) => c as int,
        None => 0,
    }
}

/// The page of `sorted` that begins at the cursor.
pub open spec fn page_of(
    sorted: Seq<AuditEntryJson>,
    limit: Option<u32>,
    cursor: Option<u32>,
) -> Seq<AuditEntryJson> {
    let lo = if page_start(cursor) < sorted.len() {
        page_start(cursor)
    } else {
        sorted.len() as int
    };
    let hi = if lo + page_limit(limit) < sorted.len() {
        lo + page_limit(limit)
    } else {
        sorted.len() as int
    };
    sorted.subrange(lo, hi)
}

/// The cursor of the page behind the one that begins at `cursor`; `None` where that page
/// reaches the end.
pub open spec fn next_cursor_of(
    sorted: Seq<AuditEntryJson>,
    limit: Option<u32>,
    cursor: Option<u32>,
) -> Option<u32> {
    let reached = page_start(cursor) + page_of(sorted, limit, cursor).len();
    if reached < sorted.len() {
        Some(reached as u32)
    } else {
        None
    }
}

/// The first entry of id `id` among `records`, looking from `i` on.
pub open spec fn entry_with_id_from(records: Seq<JournalRecord>, id: Seq<char>, i: int) -> Option<
    AuditEntryJson,
>
    decreases records.len() - i,
{
    if i < 0 || i >= records.len() {
        None
    } else {
        match records[i] {
            JournalRecord::Entry(e) => if e.id@ == id {
                Some(e)
            } else {
                entry_with_id_from(records, id, i + 1)
            },
            JournalRecord::Malformed(_) => entry_with_id_from(records, id, i + 1),
        }
    }
}

/// The first entry of id `id` in the journal.
pub open spec fn entry_with_id(records: Seq<JournalRecord>, id: Seq<char>) -> Option<
    AuditEntryJson,
> {
    entry_with_id_from(records, id, 0)
}

/// Where the journal is kept.
pub struct AuditState {
    pub log_path: PathBuf,
}

/// A path of the file system, as std holds it. Nothing of what it holds is visible here.
#[verifier::external_type_specification]
#[verifier::external_body]
pub struct ExPathBuf(std::path::PathBuf);

/// The text of a path; `None` where the path is not valid Unicode.
pub uninterp spec fn path_as_text(path: PathBuf) -> Option<Seq<char>>;

/// Calls std's `Path::to_str` and copies the text that it gives. The result is the named
/// text of the path.
#[verifier::external_body]
fn path_text(path: &PathBuf) -> (r: Option<String>)
    ensures
        match r {
            Some(t) => path_as_text(*path) == Some(t@),
            None => path_as_text(*path) is None,
        },
{
    path.to_str().map(|s| s.to_string())
}

/// The answer to a request for the journal's path, given the path's text: the text, or an
/// error where the path has none.
pub fn path_or_error(text: Option<String>) -> (r: Result<String, String>)
    ensures
        match text {
            Some(t) => r == Ok::<String, String>(t),
            None => r is Err && r->Err_0@ == "Invalid audit path"@,
        },
{
    match text {
        Some(t) => Ok(t),
        None => Err(String::from_str("Invalid audit path")),
    }
}

/// The path of the journal as text; an error where the path is not valid Unicode.
pub fn audit_path(state: &AuditState) -> (r: Result<String, String>)
    ensures
        match path_as_text(state.log_path) {
            Some(t) => r matches Ok(text) && text@ == t,
            None => r matches Err(e) && e@ == "Invalid audit path"@,
        },
{
    path_or_error(path_text(&state.log_path))
}

/// Whether replay decodes `line`: a line that holds nothing but white space is skipped
/// before any decoding.
pub fn is_record_line(line: &str) -> (r: bool)
    ensures
        r == !is_blank(line@),
{
    !blank(line)
}

/// The journal as replay finds it: one record for each line that is not blank.
#[derive(Debug)]
pub struct AuditJournal {
    pub records: Vec<JournalRecord>,
}

/// The entries among `records`, in their order.
pub fn surviving(records: Vec<JournalRecord>) -> (r: Vec<AuditEntryJson>)
    ensures
        r@ == survivors(records@),
{
    let ghost all = records@;
    let mut out: Vec<AuditEntryJson> = Vec::new();
    proof {
        assert(all.subrange(0, 0) =~= Seq::<JournalRecord>::empty());
    }
    for record in it: records
        invariant
            it.seq() == all,
            out@ == survivors(all.subrange(0, it.index() as int)),
    {
        proof {
            let i = it.index() as int;
            assert(all.subrange(0, i + 1).drop_last() =~= all.subrange(0, i));
        }
        match record {
            JournalRecord::Entry(e) => {
                out.push(e);
            },
            JournalRecord::Malformed(_) => {},
        }
    }
    proof {
        assert(all.subrange(0, all.len() as int) =~= all);
    }
    out
}

/// Whether `key` is the instant at which `e` was created.
pub open spec fn is_age_of(key: Option<Timestamp>, e: AuditEntryJson) -> bool {
    match age_of(e) {
        Some(at) => key matches Some(t) && t.instant() == at,
        None => key is None,
    }
}

/// Whether `keys` are the instants at which the `entries` were created, place by place.
pub open spec fn are_ages_of(keys: Seq<Option<Timestamp>>, entries: Seq<AuditEntryJson>) -> bool {
    keys.len() == entries.len() && forall|i: int|
        0 <= i < keys.len() ==> is_age_of(#[trigger] keys[i], entries[i])
}

/// Whether a listing puts an entry created at `a` before one created at `b` whatever their
/// places in the journal.
fn goes_first(a: &Option<Timestamp>, b: &Option<Timestamp>) -> (r: bool)
    ensures
        forall|x: AuditEntryJson, y: AuditEntryJson|
            is_age_of(*a, x) && is_age_of(*b, y) ==> r == #[trigger] newer(x, y),
{
    match a {
        Some(x) => match b {
            Some(y) => x.is_after(y),
            None => true,
        },
        None => false,
    }
}

/// Where an entry created at `key` goes among the sorted entries created at `keys`.
fn slot(
    keys: &Vec<Option<Timestamp>>,
    key: &Option<Timestamp>,
    Ghost(sorted): Ghost<Seq<AuditEntryJson>>,
    Ghost(e): Ghost<AuditEntryJson>,
) -> (r: usize)
    requires
        are_ages_of(keys@, sorted),
        is_age_of(*key, e),
    ensures
        r == slot_from(sorted, e, 0),
        r <= sorted.len(),
{
    let mut i: usize = 0;
    while i < keys.len()
        invariant
            are_ages_of(keys@, sorted),
            is_age_of(*key, e),
            i <= keys@.len(),
            slot_from(sorted, e, 0) == slot_from(sorted, e, i as int),
        decreases keys@.len() - i,
    {
        let first: bool = goes_first(key, &keys[i]);
        assert(is_age_of(keys@[i as int], sorted[i as int]));
        assert(first == newer(e, sorted[i as int]));
        if first {
            return i;
        }
        i = i + 1;
    }
    i
}

/// `entries` newest first, entries of one age in their old order, entries whose timestamp
/// cannot be read behind all others.
pub fn sort_newest_first(entries: Vec<AuditEntryJson>) -> (r: Vec<AuditEntryJson>)
    ensures
        r@ == newest_first(entries@),
{
    let ghost all = entries@;
    let mut out: Vec<AuditEntryJson> = Vec::new();
    let mut keys: Vec<Option<Timestamp>> = Vec::new();
    proof {
        assert(all.subrange(0, 0) =~= Seq::<AuditEntryJson>::empty());
    }
    for e in it: entries
        invariant
            it.seq() == all,
            out@ == newest_first(all.subrange(0, it.index() as int)),
            are_ages_of(keys@, out@),
    {
        proof {
            let i = it.index() as int;
            assert(all.subrange(0, i + 1).drop_last() =~= all.subrange(0, i));
        }
        let key: Option<Timestamp> = Timestamp::read(e.created_at.as_str());
        let p: usize = slot(&keys, &key, Ghost(out@), Ghost(e));
        let ghost keys_before = keys@;
        let ghost out_before = out@;
        out.insert(p, e);
        keys.insert(p, key);
        proof {
            assert forall|j: int| 0 <= j < keys@.len() implies is_age_of(
                #[trigger] keys@[j],
                out@[j],
            ) by {
                if j < p {
                    assert(is_age_of(keys_before[j], out_before[j]));
                } else if j > p {
                    assert(is_age_of(keys_before[j - 1], out_before[j - 1]));
                }
            }
        }
    }
    proof {
        assert(all.subrange(0, all.len() as int) =~= all);
    }
    out
}

impl AuditJournal {
    /// The journal of a store that does not exist yet: no record.
    pub fn new() -> (r: AuditJournal)
        ensures
            r.records@ == Seq::<JournalRecord>::empty(),
    {
        AuditJournal { records: Vec::new() }
    }

    /// The journal that replay found.
    pub fn replay(records: Vec<JournalRecord>) -> (r: AuditJournal)
        ensures
            r.records == records,
    {
        AuditJournal { records }
    }

    /// Adds `entry` at the end. What was recorded before stays as it is.
    pub fn append(&mut self, entry: AuditEntryJson)
        ensures
            final(self).records@ == old(self).records@.push(JournalRecord::Entry(entry)),
    {
        self.records.push(JournalRecord::Entry(entry));
    }

    /// Forgets every record. An empty journal stays empty.
    pub fn clear(&mut self)
        ensures
            final(self).records@ == Seq::<JournalRecord>::empty(),
    {
        self.records = Vec::new();
    }

    /// One page of the entries, newest first: at most `limit` of them (50 where none is
    /// given, never more than 100), from position `cursor` on (0 where none is given), and
    /// the cursor of the next page where entries remain. Damaged records are passed over.
    pub fn list(self, limit: Option<u32>, cursor: Option<u32>) -> (r: AuditListResponse)
        ensures
            r.items@ == page_of(newest_first(survivors(self.records@)), limit, cursor),
            r.next_cursor == next_cursor_of(
                newest_first(survivors(self.records@)),
                limit,
                cursor,
            ),
    {
        let sorted: Vec<AuditEntryJson> = sort_newest_first(surviving(self.records));
        let ghost all = sorted@;
        let total: usize = sorted.len();
        let asked: u32 = match limit {
            Some(l) => l,
            None => DEFAULT_PAGE_SIZE,
        };
        let size: usize = if asked < MAX_PAGE_SIZE {
            asked as usize
        } else {
            MAX_PAGE_SIZE as usize
        };
        let start: usize = match cursor {
            Some(c) => c as usize,
            None => 0,
        };
        let lo: usize = if start < total {
            start
        } else {
            total
        };
        let hi: usize = if size < total - lo {
            lo + size
        } else {
            total
        };
        let mut page: Vec<AuditEntryJson> = Vec::new();
        let mut i: usize = 0;
        proof {
            assert(all.subrange(0, 0) =~= Seq::<AuditEntryJson>::empty());
        }
        for e in it: sorted
            invariant
                it.seq() == all,
                i == it.index(),
                all.len() == total,
                lo <= hi <= all.len(),
                page@ == all.subrange(
                    if i < lo {
                        i as int
                    } else {
                        lo as int
                    },
                    if i < lo {
                        i as int
                    } else if i < hi {
                        i as int
                    } else {
                        hi as int
                    },
                ),
        {
            if lo <= i && i < hi {
                proof {
                    assert(all.subrange(lo as int, i + 1) =~= all.subrange(lo as int, i as int).push(
                        all[i as int],
                    ));
                }
                page.push(e);
            } else {
                proof {
                    if i < lo {
                        assert(all.subrange(i as int, i as int) =~= all.subrange(i + 1, i + 1));
                        if i + 1 == lo {
                            assert(all.subrange(i + 1, i + 1) =~= all.subrange(
                                lo as int,
                                lo as int,
                            ));
                        }
                    }
                }
            }
            i = i + 1;
        }
        assert(page@ == all.subrange(lo as int, hi as int));
        let next_cursor: Option<u32> = if start < total && page.len() < total - start {
            Some(#[verifier::truncate] ((start + page.len()) as u32))
        } else {
            None
        };
        AuditListResponse { items: page, next_cursor }
    }

    /// The first entry of id `id`; `None` where the journal holds none. Damaged records are
    /// passed over.
    pub fn get(self, id: &str) -> (r: Option<AuditEntryJson>)
        ensures
            r == entry_with_id(self.records@, id@),
    {
        let wanted: String = id.to_owned();
        let ghost all = self.records@;
        for record in it: self.records
            invariant
                wanted@ == id@,
                it.seq() == all,
                entry_with_id(all, id@) == entry_with_id_from(all, id@, it.index() as int),
        {
            match record {
                JournalRecord::Entry(e) => {
                    if e.id == wanted {
                        return Some(e);
                    }
                },
                JournalRecord::Malformed(_) => {},
            }
        }
        None
    }
}

/// Whether `sorted` runs from the newest entry to the oldest: no entry is newer than one
/// that stands before it.
pub open spec fn is_newest_first(sorted: Seq<AuditEntryJson>) -> bool {
    forall|i: int, j: int| 0 <= i < j < sorted.len() ==> !newer(sorted[j], sorted[i])
}

/// The entries created at the instant `age`; with `None`, those whose timestamp cannot be
/// read.
pub open spec fn created_at(age: Option<(i64, u32)>) -> spec_fn(AuditEntryJson) -> bool {
    |e: AuditEntryJson| age_of(e) == age
}

/// The slot of `e` lies among the entries; no entry between `i` and the slot is older than
/// `e`, and the entry at the slot is.
pub proof fn lemma_slot(sorted: Seq<AuditEntryJson>, e: AuditEntryJson, i: int)
    requires
        0 <= i <= sorted.len(),
    ensures
        i <= slot_from(sorted, e, i) <= sorted.len(),
        forall|j: int| i <= j < slot_from(sorted, e, i) ==> !newer(e, sorted[j]),
        slot_from(sorted, e, i) < sorted.len() ==> newer(e, sorted[slot_from(sorted, e, i)]),
    decreases sorted.len() - i,
{
    if i < sorted.len() && !newer(e, sorted[i]) {
        lemma_slot(sorted, e, i + 1);
    }
}

/// Putting an entry into its slot keeps a listing in order.
pub proof fn lemma_insert_keeps_order(sorted: Seq<AuditEntryJson>, e: AuditEntryJson)
    requires
        is_newest_first(sorted),
    ensures
        is_newest_first(sorted.insert(slot_from(sorted, e, 0), e)),
{
    let p = slot_from(sorted, e, 0);
    lemma_slot(sorted, e, 0);
    let out = sorted.insert(p, e);
    assert forall|i: int, j: int| 0 <= i < j < out.len() implies !newer(out[j], out[i]) by {
        if j == p {
            assert(out[i] == sorted[i]);
            assert(!newer(e, sorted[i]));
        } else if i == p {
            assert(out[j] == sorted[j - 1]);
            if newer(sorted[j - 1], e) {
                assert(newer(e, sorted[p]));
                assert(newer(sorted[j - 1], sorted[p]));
                if j - 1 != p {
                    assert(!newer(sorted[j - 1], sorted[p]));
                }
            }
        } else {
            let i0 = if i < p { i } else { i - 1 };
            let j0 = if j < p { j } else { j - 1 };
            assert(out[i] == sorted[i0]);
            assert(out[j] == sorted[j0]);
            assert(!newer(sorted[j0], sorted[i0]));
        }
    }
}

/// A listing runs from the newest entry to the oldest.
pub proof fn lemma_listing_is_ordered(entries: Seq<AuditEntryJson>)
    ensures
        is_newest_first(newest_first(entries)),
    decreases entries.len(),
{
    if entries.len() > 0 {
        lemma_listing_is_ordered(entries.drop_last());
        lemma_insert_keeps_order(newest_first(entries.drop_last()), entries.last());
    }
}

/// A listing holds the entries it was made of, each as often as it occurred.
pub proof fn lemma_listing_keeps_entries(entries: Seq<AuditEntryJson>)
    ensures
        newest_first(entries).to_multiset() == entries.to_multiset(),
        newest_first(entries).len() == entries.len(),
    decreases entries.len(),
{
    if entries.len() > 0 {
        let before = newest_first(entries.drop_last());
        lemma_listing_keeps_entries(entries.drop_last());
        lemma_slot(before, entries.last(), 0);
        vstd::seq_lib::to_multiset_insert(before, slot_from(before, entries.last(), 0), entries.last());
        vstd::seq_lib::to_multiset_build(entries.drop_last(), entries.last());
        assert(entries.drop_last().push(entries.last()) =~= entries);
    }
}

/// Where the predicate holds of no element, nothing passes the filter.
pub proof fn lemma_filter_none<A>(s: Seq<A>, pred: spec_fn(A) -> bool)
    requires
        forall|i: int| 0 <= i < s.len() ==> !pred(#[trigger] s[i]),
    ensures
        s.filter(pred) == Seq::<A>::empty(),
    decreases s.len(),
{
    reveal(Seq::filter);
    if s.len() > 0 {
        assert forall|i: int| 0 <= i < s.drop_last().len() implies !pred(
            #[trigger] s.drop_last()[i],
        ) by {
            assert(s.drop_last()[i] == s[i]);
        }
        lemma_filter_none(s.drop_last(), pred);
        assert(!pred(s[s.len() - 1]));
    }
}

/// Entries of one age stand in a listing in the order in which the journal holds them.
pub proof fn lemma_listing_is_stable(entries: Seq<AuditEntryJson>, age: Option<(i64, u32)>)
    ensures
        newest_first(entries).filter(created_at(age)) == entries.filter(created_at(age)),
    decreases entries.len(),
{
    let f = created_at(age);
    if entries.len() == 0 {
    } else {
        let d = entries.drop_last();
        let l = entries.last();
        let before = newest_first(d);
        let p = slot_from(before, l, 0);
        lemma_listing_is_stable(d, age);
        lemma_listing_is_ordered(d);
        lemma_slot(before, l, 0);
        let head = before.subrange(0, p);
        let tail = before.subrange(p, before.len() as int);
        assert(before =~= head + tail);
        assert(before.insert(p, l) =~= head.push(l) + tail);
        Seq::filter_distributes_over_add(head, tail, f);
        Seq::filter_distributes_over_add(head.push(l), tail, f);
        lemma_filter_push(head, l, f);
        lemma_filter_push(d, l, f);
        assert(d.push(l) =~= entries);
        if f(l) {
            assert forall|j: int| 0 <= j < tail.len() implies !f(#[trigger] tail[j]) by {
                assert(tail[j] == before[p + j]);
                if f(tail[j]) {
                    assert(newer(l, before[p]));
                    if j > 0 {
                        assert(!newer(before[p + j], before[p]));
                    }
                }
            }
            lemma_filter_none(tail, f);
        }
    }
}

/// The pages of `sorted`, one behind the other, from the page at `cursor` on to the page
/// that names no next cursor.
pub open spec fn pages_from(sorted: Seq<AuditEntryJson>, limit: Option<u32>, cursor: int) -> Seq<
    AuditEntryJson,
>
    decreases sorted.len() - cursor,
{
    let page = page_of(sorted, limit, Some(cursor as u32));
    match next_cursor_of(sorted, limit, Some(cursor as u32)) {
        Some(next) => if cursor < next <= sorted.len() {
            page + pages_from(sorted, limit, next as int)
        } else {
            page
        },
        None => page,
    }
}

/// Following the cursors from any position gives every entry from that position on, once and
/// in order, as long as a page may hold an entry and a cursor can name every position.
pub proof fn lemma_pages_reach_the_end(sorted: Seq<AuditEntryJson>, limit: Option<u32>, cursor: int)
    requires
        sorted.len() <= u32::MAX,
        page_limit(limit) > 0,
        0 <= cursor <= sorted.len(),
    ensures
        pages_from(sorted, limit, cursor) == sorted.skip(cursor),
    decreases sorted.len() - cursor,
{
    let c = Some(cursor as u32);
    let page = page_of(sorted, limit, c);
    let reached = cursor + page.len();
    if reached < sorted.len() {
        assert(next_cursor_of(sorted, limit, c) == Some(reached as u32));
        lemma_pages_reach_the_end(sorted, limit, reached);
        assert(page + sorted.skip(reached) =~= sorted.skip(cursor));
    } else {
        assert(page =~= sorted.skip(cursor));
    }
}

/// A page that names a next cursor is full, and the next cursor stands right behind it: every
/// page of a walk but the last holds as many entries as a page may.
pub proof fn law_pages_before_the_last_are_full(
    sorted: Seq<AuditEntryJson>,
    limit: Option<u32>,
    cursor: u32,
)
    requires
        sorted.len() <= u32::MAX,
    ensures
        next_cursor_of(sorted, limit, Some(cursor)) matches Some(next) ==> page_of(
            sorted,
            limit,
            Some(cursor),
        ).len() == page_limit(limit) && next == cursor + page_limit(limit),
{
}

/// Reading page after page, each from the cursor that the page before it named, until a
/// page names none, gives the whole listing: every entry once, in order.
pub proof fn law_pages_rebuild_listing(records: Seq<JournalRecord>, limit: Option<u32>)
    requires
        survivors(records).len() <= u32::MAX,
        limit != Some(0u32),
    ensures
        pages_from(newest_first(survivors(records)), limit, 0) == newest_first(
            survivors(records),
        ),
{
    let sorted = newest_first(survivors(records));
    lemma_listing_keeps_entries(survivors(records));
    lemma_pages_reach_the_end(sorted, limit, 0);
    assert(sorted.skip(0) =~= sorted);
}

/// The journal after `entries` were appended to it, one after the other.
pub open spec fn appended(records: Seq<JournalRecord>, entries: Seq<AuditEntryJson>) -> Seq<
    JournalRecord,
>
    decreases entries.len(),
{
    if entries.len() == 0 {
        records
    } else {
        appended(records, entries.drop_last()).push(JournalRecord::Entry(entries.last()))
    }
}

/// Appended entries survive replay, behind what survived before.
pub proof fn lemma_appended_survive(records: Seq<JournalRecord>, entries: Seq<AuditEntryJson>)
    ensures
        survivors(appended(records, entries)) == survivors(records) + entries,
    decreases entries.len(),
{
    if entries.len() == 0 {
        assert(survivors(records) + entries =~= survivors(records));
    } else {
        lemma_appended_survive(records, entries.drop_last());
        let shorter = appended(records, entries.drop_last());
        assert(appended(records, entries).drop_last() =~= shorter);
        assert((survivors(records) + entries.drop_last()).push(entries.last()) =~= survivors(
            records,
        ) + entries);
    }
}

/// After any number of entries up to the greatest page size were appended to an empty
/// journal, a listing from the start with that number as its limit holds all of them, newest
/// first, and names no next page.
pub proof fn law_listing_holds_all_appended(entries: Seq<AuditEntryJson>)
    requires
        entries.len() <= MAX_PAGE_SIZE,
    ensures
        ({
            let journal = appended(Seq::<JournalRecord>::empty(), entries);
            let listing = newest_first(survivors(journal));
            let limit = Some(entries.len() as u32);
            &&& page_of(listing, limit, Some(0u32)) == listing
            &&& next_cursor_of(listing, limit, Some(0u32)) is None
            &&& listing.to_multiset() == entries.to_multiset()
            &&& is_newest_first(listing)
        }),
{
    let journal = appended(Seq::<JournalRecord>::empty(), entries);
    lemma_appended_survive(Seq::<JournalRecord>::empty(), entries);
    assert(Seq::<AuditEntryJson>::empty() + entries =~= entries);
    let listing = newest_first(entries);
    lemma_listing_keeps_entries(entries);
    lemma_listing_is_ordered(entries);
    assert(listing.subrange(0, listing.len() as int) =~= listing);
}

/// A damaged record, wherever it stands in the journal, changes nothing of the entries that
/// survive replay.
pub proof fn law_damaged_record_is_passed_over(
    records: Seq<JournalRecord>,
    i: int,
    why: String,
)
    requires
        0 <= i <= records.len(),
    ensures
        survivors(records.insert(i, JournalRecord::Malformed(why))) == survivors(records),
    decreases records.len(),
{
    let damaged = JournalRecord::Malformed(why);
    let longer = records.insert(i, damaged);
    if i == records.len() {
        assert(longer.drop_last() =~= records);
    } else {
        law_damaged_record_is_passed_over(records.drop_last(), i, why);
        assert(longer.drop_last() =~= records.drop_last().insert(i, damaged));
        assert(longer.last() == records.last());
    }
}

} // verus!
