//! The queue of pending fill commands: one command per id, invisible once expired.

use crate::text::same_text;
use crate::timestamp::instant_later;
use crate::timestamp::instant_of;
use crate::timestamp::Timestamp;
use crate::wire::FillCommandJson;
use vstd::prelude::*;

verus! {

/// The commands whose id is not `id`.
pub open spec fn has_other_id(id: Seq<char>) -> spec_fn(FillCommandJson) -> bool {
    |c: FillCommandJson| c.id@ != id
}

/// The queue without the command of id `id`.
pub open spec fn without_id(queue: Seq<FillCommandJson>, id: Seq<char>) -> Seq<FillCommandJson> {
    queue.filter(has_other_id(id))
}

/// The queue after `command` was published: any command of the same id is gone, and
/// `command` stands at the end.
pub open spec fn published(queue: Seq<FillCommandJson>, command: FillCommandJson) -> Seq<
    FillCommandJson,
> {
    without_id(queue, command.id@).push(command)
}

/// Whether `command` has not expired at the instant `now`: its expiry spells an instant
/// that comes strictly after `now`. A command whose expiry cannot be read counts as expired.
pub open spec fn is_live(command: FillCommandJson, now: (i64, u32)) -> bool {
    match instant_of(command.expires_at@) {
        Some(expiry) => instant_later(expiry, now),
        None => false,
    }
}

/// Whether a poll at `now` for `domain` shows `command`.
pub open spec fn is_visible(
    command: FillCommandJson,
    domain: Option<Seq<char>>,
    now: (i64, u32),
) -> bool {
    is_live(command, now) && (domain matches Some(d) ==> command.target_domain@ == d)
}

/// The commands that a poll at `now` for `domain` shows.
pub open spec fn shown_to(domain: Option<Seq<char>>, now: (i64, u32)) -> spec_fn(
    FillCommandJson,
) -> bool {
    |c: FillCommandJson| is_visible(c, domain, now)
}

/// What a poll at `now` for `domain` returns: the visible commands, in the order of the queue.
pub open spec fn polled(
    queue: Seq<FillCommandJson>,
    domain: Option<Seq<char>>,
    now: (i64, u32),
) -> Seq<FillCommandJson> {
    queue.filter(shown_to(domain, now))
}

/// Filtering a sequence that ends in `x` filters what stands before `x` and keeps `x` where
/// the predicate holds of it.
pub proof fn lemma_filter_push<A>(s: Seq<A>, x: A, pred: spec_fn(A) -> bool)
    ensures
        s.push(x).filter(pred) == if pred(x) {
            s.filter(pred).push(x)
        } else {
            s.filter(pred)
        },
{
    reveal(Seq::filter);
    assert(s.push(x).drop_last() =~= s);
}

/// The fill commands that wait for the extension.
#[derive(Debug)]
pub struct FillCommandState {
    pub commands: Vec<FillCommandJson>,
}

impl FillCommandState {
    /// An empty queue.
    pub fn new() -> (r: FillCommandState)
        ensures
            r.commands@ == Seq::<FillCommandJson>::empty(),
    {
        FillCommandState { commands: Vec::new() }
    }

    /// Removes the command of id `id`, if there is one.
    pub fn acknowledge(&mut self, id: &str)
        ensures
            final(self).commands@ == without_id(old(self).commands@, id@),
    {
        let wanted: String = id.to_owned();
        let mut taken: Vec<FillCommandJson> = Vec::new();
        core::mem::swap(&mut self.commands, &mut taken);
        let ghost all = taken@;
        let mut kept: Vec<FillCommandJson> = Vec::new();
        proof {
            reveal(Seq::filter);
            assert(all.subrange(0, 0) =~= Seq::<FillCommandJson>::empty());
        }
        for c in it: taken
            invariant
                wanted@ == id@,
                it.seq() == all,
                kept@ == without_id(all.subrange(0, it.index() as int), id@),
        {
            proof {
                let i = it.index() as int;
                assert(all.subrange(0, i + 1) =~= all.subrange(0, i).push(all[i]));
                lemma_filter_push(all.subrange(0, i), all[i], has_other_id(id@));
            }
            if c.id != wanted {
                kept.push(c);
            }
        }
        proof {
            assert(all.subrange(0, all.len() as int) =~= all);
        }
        self.commands = kept;
    }

    /// Puts `command` into the queue, in place of any command of the same id.
    pub fn publish(&mut self, command: FillCommandJson)
        ensures
            final(self).commands@ == published(old(self).commands@, command),
    {
        self.acknowledge(command.id.as_str());
        self.commands.push(command);
    }

    /// The commands whose expiry lies strictly after the instant `now`, only those for
    /// `domain` where one is given, in the order of the queue. A command whose expiry cannot
    /// be read is not shown. The queue itself is left as it is.
    pub fn poll(&self, domain: Option<&str>, now: Timestamp) -> (r: Vec<&FillCommandJson>)
        ensures
            pointed_at(r@) == polled(self.commands@, view_of(domain), now.instant()),
            forall|i: int| 0 <= i < r@.len() ==> is_live(*#[trigger] r@[i], now.instant()),
    {
        let ghost all = self.commands@;
        let ghost want = view_of(domain);
        let mut out: Vec<&FillCommandJson> = Vec::new();
        let mut i: usize = 0;
        proof {
            reveal(Seq::filter);
            assert(all.subrange(0, 0) =~= Seq::<FillCommandJson>::empty());
            assert(pointed_at(out@) =~= Seq::<FillCommandJson>::empty());
        }
        while i < self.commands.len()
            invariant
                all == self.commands@,
                want == view_of(domain),
                i <= all.len(),
                pointed_at(out@) == polled(all.subrange(0, i as int), want, now.instant()),
                forall|j: int|
                    0 <= j < out@.len() ==> is_live(*#[trigger] out@[j], now.instant()),
            decreases all.len() - i,
        {
            let c: &FillCommandJson = &self.commands[i];
            let live: bool = match Timestamp::read(c.expires_at.as_str()) {
                Some(expiry) => expiry.is_after(&now),
                None => false,
            };
            let wanted: bool = match domain {
                Some(d) => same_text(c.target_domain.as_str(), d),
                None => true,
            };
            proof {
                assert(all.subrange(0, i + 1) =~= all.subrange(0, i as int).push(all[i as int]));
                lemma_filter_push(all.subrange(0, i as int), all[i as int], shown_to(
                        want,
                        now.instant(),
                    ),
                );
                assert(pointed_at(out@.push(c)) =~= pointed_at(out@).push(*c));
            }
            if live && wanted {
                out.push(c);
            }
            i = i + 1;
        }
        proof {
            assert(all.subrange(0, all.len() as int) =~= all);
        }
        out
    }
}

/// The values behind a sequence of references.
pub open spec fn pointed_at(refs: Seq<&FillCommandJson>) -> Seq<FillCommandJson> {
    refs.map_values(|c: &FillCommandJson| *c)
}

/// The characters of an optional string.
pub open spec fn view_of(text: Option<&str>) -> Option<Seq<char>> {
    match text {
        Some(t) => Some(t@),
        None => None,
    }
}

/// The commands whose id is `id`.
pub open spec fn has_id(id: Seq<char>) -> spec_fn(FillCommandJson) -> bool {
    |c: FillCommandJson| c.id@ == id
}

/// After a command is published, it is the only command of its id in the queue.
pub proof fn lemma_published_once(queue: Seq<FillCommandJson>, command: FillCommandJson)
    ensures
        published(queue, command).filter(has_id(command.id@)) == seq![command],
{
    let id = command.id@;
    let rest = without_id(queue, id);
    lemma_filter_push(rest, command, has_id(id));
    lemma_none_left(queue, id);
    assert(Seq::<FillCommandJson>::empty().push(command) =~= seq![command]);
}

/// Once the commands of an id are taken out, none of that id is left.
pub proof fn lemma_none_left(queue: Seq<FillCommandJson>, id: Seq<char>)
    ensures
        without_id(queue, id).filter(has_id(id)) == Seq::<FillCommandJson>::empty(),
    decreases queue.len(),
{
    reveal(Seq::filter);
    if queue.len() > 0 {
        lemma_none_left(queue.drop_last(), id);
        if has_other_id(id)(queue.last()) {
            lemma_filter_push(without_id(queue.drop_last(), id), queue.last(), has_id(id));
        }
    }
}

/// Publishing two commands of one id, one after the other, leaves exactly one command of
/// that id in the queue: the second.
pub proof fn law_same_id_replaces(
    queue: Seq<FillCommandJson>,
    first: FillCommandJson,
    second: FillCommandJson,
)
    requires
        first.id@ == second.id@,
    ensures
        published(published(queue, first), second).filter(has_id(second.id@)) == seq![second],
{
    lemma_published_once(published(queue, first), second);
}

/// A poll shows no command whose expiry is at or before the instant of the poll, whether or
/// not the command was acknowledged: the expiry of every command shown spells an instant
/// strictly after the poll's.
pub proof fn law_poll_hides_expired(
    queue: Seq<FillCommandJson>,
    domain: Option<Seq<char>>,
    now: (i64, u32),
    i: int,
)
    requires
        0 <= i < polled(queue, domain, now).len(),
    ensures
        instant_of(polled(queue, domain, now)[i].expires_at@) matches Some(expiry)
            && instant_later(expiry, now),
{
    queue.lemma_filter_pred(shown_to(domain, now), i);
}

} // verus!
