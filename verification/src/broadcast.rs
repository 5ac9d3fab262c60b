//! The subscribers of the status record, and the bookkeeping of one round of
//! delivery to them.
//!
//! The broadcaster owns the connections but never writes to one. A round
//! walks the list: the caller takes the current connection, tries to deliver
//! to it, and reports whether that worked. A connection that failed is
//! dropped on the spot, the last one taking its place, so the order of the
//! remaining ones is not kept.

use vstd::prelude::*;
use vstd::seq_lib::{to_multiset_build, to_multiset_remove, to_multiset_update};

verus! {

/// The list of attached subscriber connections.
pub struct Broadcaster<C> {
    subscribers: Vec<C>,
}

/// A position in a round of delivery: the index of the next connection to
/// deliver to.
#[derive(Clone, Copy, Debug, PartialEq, Eq, Structural)]
pub struct Round {
    pub next: usize,
}

impl<C> View for Broadcaster<C> {
    type V = Seq<C>;

    closed spec fn view(&self) -> Seq<C> {
        self.subscribers@
    }
}

/// The list after the connection at `index` is dropped: the last connection
/// takes its place.
pub open spec fn evict<C>(subscribers: Seq<C>, index: int) -> Seq<C> {
    subscribers.update(index, subscribers.last()).drop_last()
}

/// One step of a round at position `next`: after a delivery the round moves
/// on; after a failure the connection is dropped and the round stays where
/// it is, now facing the connection that took the place. A round that is
/// over does not step.
pub open spec fn step<C>(subscribers: Seq<C>, next: int, delivered: bool) -> (Seq<C>, int) {
    if !(0 <= next < subscribers.len()) {
        (subscribers, next)
    } else if delivered {
        (subscribers, next + 1)
    } else {
        (evict(subscribers, next), next)
    }
}

/// The list at the end of a round that stands at `next`, where `accepts`
/// tells of each connection whether delivery to it works.
pub open spec fn round_from<C>(subscribers: Seq<C>, next: int, accepts: spec_fn(C) -> bool) -> Seq<
    C,
>
    decreases subscribers.len() - next,
{
    if 0 <= next < subscribers.len() {
        let after = step(subscribers, next, accepts(subscribers[next]));
        round_from(after.0, after.1, accepts)
    } else {
        subscribers
    }
}

/// The number of deliveries attempted in a round that stands at `next`.
pub open spec fn attempts_from<C>(subscribers: Seq<C>, next: int, accepts: spec_fn(C) -> bool)
    -> nat
    decreases subscribers.len() - next,
{
    if 0 <= next < subscribers.len() {
        let after = step(subscribers, next, accepts(subscribers[next]));
        1 + attempts_from(after.0, after.1, accepts)
    } else {
        0
    }
}

impl<C> Broadcaster<C> {
    /// A broadcaster without subscribers.
    pub fn new() -> (broadcaster: Broadcaster<C>)
        ensures
            broadcaster@ == Seq::<C>::empty(),
    {
        Broadcaster { subscribers: Vec::new() }
    }

    /// The number of subscribers.
    pub fn len(&self) -> (len: usize)
        ensures
            len == self@.len(),
    {
        self.subscribers.len()
    }

    /// Adds a connection at the end of the list.
    pub fn attach(&mut self, connection: C)
        ensures
            final(self)@ == old(self)@.push(connection),
    {
        self.subscribers.push(connection);
    }

    /// The start of a round: the first connection is next.
    pub fn begin(&self) -> (round: Round)
        ensures
            round.next == 0,
    {
        Round { next: 0 }
    }

    /// The connection to deliver to next, or `None` when the round is over.
    pub fn current(&self, round: &Round) -> (connection: Option<&C>)
        ensures
            round.next < self@.len() ==> connection == Some(&self@[round.next as int]),
            round.next >= self@.len() ==> connection is None,
    {
        if round.next < self.subscribers.len() {
            Some(&self.subscribers[round.next])
        } else {
            None
        }
    }

    /// Records how the delivery to the current connection went, and hands
    /// back the connection if it was dropped. After a round that is over
    /// this does nothing.
    pub fn settle(&mut self, round: &mut Round, delivered: bool) -> (dropped: Option<C>)
        ensures
            (final(self)@, final(round).next as int) == step(
                old(self)@,
                old(round).next as int,
                delivered,
            ),
            old(round).next < old(self)@.len() && !delivered ==> dropped == Some(
                old(self)@[old(round).next as int],
            ),
            old(round).next >= old(self)@.len() || delivered ==> dropped is None,
    {
        if round.next >= self.subscribers.len() {
            None
        } else if delivered {
            round.next = round.next + 1;
            None
        } else {
            Some(self.subscribers.swap_remove(round.next))
        }
    }
}

/// Dropping a connection takes one occurrence of it out of the list and
/// leaves all the others, and the connections before it stay in place.
pub proof fn lemma_evict<C>(subscribers: Seq<C>, index: int)
    requires
        0 <= index < subscribers.len(),
    ensures
        evict(subscribers, index).len() == subscribers.len() - 1,
        evict(subscribers, index).to_multiset() == subscribers.to_multiset().remove(
            subscribers[index],
        ),
        evict(subscribers, index).take(index) == subscribers.take(index),
{
    let last = subscribers.last();
    let updated = subscribers.update(index, last);
    to_multiset_update(subscribers, index, last);
    assert(updated.drop_last() =~= updated.remove(updated.len() - 1));
    to_multiset_remove(updated, updated.len() - 1);
    assert(updated[updated.len() - 1] == last);
    assert(evict(subscribers, index).to_multiset() =~= subscribers.to_multiset().remove(
        subscribers[index],
    ));
    assert(evict(subscribers, index).take(index) =~= subscribers.take(index));
}

/// A round delivers to every connection once: from position `next` it makes
/// as many attempts as connections are still to come. It keeps the
/// connections it has passed in place. At its end, a connection that
/// accepts delivery is on the list as often as it was before, and one that
/// does not is there only as often as the round had already passed it.
pub proof fn law_round_keeps_who_accepts<C>(
    subscribers: Seq<C>,
    next: int,
    accepts: spec_fn(C) -> bool,
)
    requires
        0 <= next <= subscribers.len(),
    ensures
        attempts_from(subscribers, next, accepts) == subscribers.len() - next,
        next <= round_from(subscribers, next, accepts).len() <= subscribers.len(),
        round_from(subscribers, next, accepts).take(next) == subscribers.take(next),
        forall|c: C|
            accepts(c) ==> #[trigger] round_from(subscribers, next, accepts).to_multiset().count(c)
                == subscribers.to_multiset().count(c),
        forall|c: C|
            !accepts(c) ==> #[trigger] round_from(subscribers, next, accepts).to_multiset().count(
                c,
            ) == subscribers.take(next).to_multiset().count(c),
    decreases subscribers.len() - next,
{
    let result = round_from(subscribers, next, accepts);
    if next < subscribers.len() {
        let facing = subscribers[next];
        if accepts(facing) {
            law_round_keeps_who_accepts(subscribers, next + 1, accepts);
            assert(subscribers.take(next + 1) =~= subscribers.take(next).push(facing));
            to_multiset_build(subscribers.take(next), facing);
            assert(result.take(next) =~= result.take(next + 1).take(next));
        } else {
            lemma_evict(subscribers, next);
            law_round_keeps_who_accepts(evict(subscribers, next), next, accepts);
        }
    } else {
        assert(subscribers.take(next) =~= subscribers);
    }
}

/// A whole round leaves exactly the connections that accept delivery, each
/// as often as it was attached, after one attempt for every connection.
pub proof fn law_round_evicts_failures<C>(subscribers: Seq<C>, accepts: spec_fn(C) -> bool)
    ensures
        attempts_from(subscribers, 0, accepts) == subscribers.len(),
        forall|c: C|
            #[trigger] round_from(subscribers, 0, accepts).to_multiset().count(c) == if accepts(c) {
                subscribers.to_multiset().count(c)
            } else {
                0
            },
{
    law_round_keeps_who_accepts(subscribers, 0, accepts);
    assert(subscribers.take(0) =~= Seq::<C>::empty());
    assert(Seq::<C>::empty().to_multiset() =~= vstd::multiset::Multiset::<C>::empty()) by {
        Seq::<C>::empty().to_multiset_ensures();
    }
}

} // verus!
