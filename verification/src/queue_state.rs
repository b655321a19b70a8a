//! The state of the queue as a mathematical value, the transitions that the
//! operations make on it, and what follows from them.
//!
//! Nothing here runs. The engine's contracts are written over these
//! definitions, and the proof functions at the end state what the
//! definitions imply for a caller.

use vstd::prelude::*;
use vstd::set_lib::lemma_len_subset;

verus! {

/// Nanoseconds in one second: time-to-live is configured in seconds, ages are
/// measured in nanoseconds.
pub const NANOS_PER_SECOND: u128 = 1_000_000_000;

/// What the index knows of one pending message.
pub struct Scheduled {
    /// Larger is served first.
    pub priority: i32,
    /// How many messages the handler had accepted before this one.
    pub arrival: nat,
    /// When the message was enqueued, in nanoseconds on the handler's clock.
    pub created_at: u128,
    /// Seconds after `created_at` from which the message counts as expired.
    pub ttl: u64,
}

impl Scheduled {
    /// The service order: higher priority first, and among equal priorities
    /// the earlier arrival first.
    pub open spec fn served_before(self, other: Scheduled) -> bool {
        self.priority > other.priority || (self.priority == other.priority && self.arrival
            < other.arrival)
    }

    /// A message is expired from the moment its time-to-live has passed.
    pub open spec fn expired_at(self, now: u128) -> bool {
        self.created_at + self.ttl * NANOS_PER_SECOND <= now
    }
}

/// The state of a handler, as the contracts see it.
#[verifier::ext_equal]
pub struct QueueState {
    /// The pending messages, by id.
    pub entries: Map<Seq<char>, Scheduled>,
    /// How many messages the handler has accepted so far.
    pub arrivals: nat,
    /// Time-to-live, in seconds, given to every new message.
    pub retention: u64,
    /// Directory that holds the payload files.
    pub store_dir: Seq<char>,
    /// Whether the handler is to be swept periodically.
    pub sweeps: bool,
}

impl QueueState {
    /// A handler that has not accepted any message yet.
    pub open spec fn initial(retention: u64, store_dir: Seq<char>, sweeps: bool) -> QueueState {
        QueueState { entries: Map::empty(), arrivals: 0, retention, store_dir, sweeps }
    }

    /// Finitely many messages are pending, every one of them arrived before
    /// the next one will, and no two arrived at once.
    pub open spec fn valid(self) -> bool {
        &&& self.entries.dom().finite()
        &&& self.arrivals <= u64::MAX
        &&& forall|id: Seq<char>| #[trigger]
            self.entries.contains_key(id) ==> self.entries[id].arrival < self.arrivals
        &&& forall|a: Seq<char>, b: Seq<char>|
            #![trigger self.entries[a], self.entries[b]]
            self.entries.contains_key(a) && self.entries.contains_key(b) && a != b
                ==> self.entries[a].arrival != self.entries[b].arrival
    }

    /// Whether the handler can still number another arrival.
    pub open spec fn has_room(self) -> bool {
        self.arrivals < u64::MAX
    }

    /// Whether nothing is pending.
    pub open spec fn is_empty(self) -> bool {
        forall|id: Seq<char>| !self.entries.contains_key(id)
    }

    /// Whether `id` is the message to serve next: it is pending, and it is
    /// served before every other pending message.
    pub open spec fn is_head(self, id: Seq<char>) -> bool {
        &&& self.entries.contains_key(id)
        &&& forall|other: Seq<char>| #[trigger]
            self.entries.contains_key(other) && other != id ==> self.entries[id].served_before(
                self.entries[other],
            )
    }

    /// The state after message `id` has been accepted.
    pub open spec fn pushed(self, id: Seq<char>, priority: i32, created_at: u128, ttl: u64)
        -> QueueState {
        QueueState {
            entries: self.entries.insert(
                id,
                Scheduled { priority, arrival: self.arrivals, created_at, ttl },
            ),
            arrivals: self.arrivals + 1,
            ..self
        }
    }

    /// The state after message `id` has been taken off the index.
    pub open spec fn pulled(self, id: Seq<char>) -> QueueState {
        QueueState { entries: self.entries.remove(id), ..self }
    }

    /// The state after a sweep at time `now`: the messages that have not
    /// expired, each as it was.
    pub open spec fn swept(self, now: u128) -> QueueState {
        QueueState {
            entries: Map::new(
                |id: Seq<char>| self.entries.contains_key(id) && !self.entries[id].expired_at(now),
                |id: Seq<char>| self.entries[id],
            ),
            ..self
        }
    }
}

impl QueueState {
    /// Accepting a message keeps the state valid, as long as there is room.
    pub proof fn pushed_is_valid(self, id: Seq<char>, priority: i32, created_at: u128, ttl: u64)
        requires
            self.valid(),
            self.has_room(),
        ensures
            self.pushed(id, priority, created_at, ttl).valid(),
    {
        let after = self.pushed(id, priority, created_at, ttl);
        assert(after.entries.dom() =~= self.entries.dom().insert(id));
        assert forall|a: Seq<char>, b: Seq<char>|
            #![trigger after.entries[a], after.entries[b]]
            after.entries.contains_key(a) && after.entries.contains_key(b) && a
                != b implies after.entries[a].arrival != after.entries[b].arrival by {
            if a != id {
                assert(self.entries.contains_key(a));
            }
            if b != id {
                assert(self.entries.contains_key(b));
            }
        }
    }

    /// Taking a message off the index keeps the state valid.
    pub proof fn pulled_is_valid(self, id: Seq<char>)
        requires
            self.valid(),
        ensures
            self.pulled(id).valid(),
    {
        let after = self.pulled(id);
        assert(after.entries.dom() =~= self.entries.dom().remove(id));
        assert forall|a: Seq<char>| #[trigger]
            after.entries.contains_key(a) implies after.entries[a].arrival < after.arrivals by {
            assert(self.entries.contains_key(a));
        }
    }

    /// A sweep keeps the state valid.
    pub proof fn swept_is_valid(self, now: u128)
        requires
            self.valid(),
        ensures
            self.swept(now).valid(),
    {
        let after = self.swept(now);
        assert(after.entries.dom().subset_of(self.entries.dom()));
        lemma_len_subset(after.entries.dom(), self.entries.dom());
        assert forall|a: Seq<char>| #[trigger]
            after.entries.contains_key(a) implies after.entries[a].arrival < after.arrivals by {
            assert(self.entries.contains_key(a));
        }
    }

    /// At most one message is the next to serve.
    pub proof fn head_is_unique(self, a: Seq<char>, b: Seq<char>)
        requires
            self.valid(),
            self.is_head(a),
            self.is_head(b),
        ensures
            a == b,
    {
        if a != b {
            assert(self.entries[a].served_before(self.entries[b]));
            assert(self.entries[b].served_before(self.entries[a]));
        }
    }

    /// Messages leave in service order: of two messages dequeued one after
    /// the other, the second has no higher priority than the first, and if
    /// their priorities are equal the first was enqueued earlier.
    pub proof fn pulls_follow_service_order(self, first: Seq<char>, second: Seq<char>)
        requires
            self.valid(),
            self.is_head(first),
            self.pulled(first).is_head(second),
        ensures
            self.entries.contains_key(second),
            first != second,
            self.entries[first].priority >= self.entries[second].priority,
            self.entries[first].priority == self.entries[second].priority
                ==> self.entries[first].arrival < self.entries[second].arrival,
    {
        assert(self.pulled(first).entries.contains_key(second));
        assert(self.entries.contains_key(second) && second != first);
        assert(self.entries[first].served_before(self.entries[second]));
    }

    /// Where no message was enqueued with a higher priority than one
    /// enqueued before it, the queue is first in, first out: the message to
    /// serve next is the one that has waited longest.
    pub proof fn oldest_first_when_priorities_never_rise(self, head: Seq<char>, other: Seq<char>)
        requires
            self.valid(),
            forall|a: Seq<char>, b: Seq<char>|
                #![trigger self.entries[a], self.entries[b]]
                self.entries.contains_key(a) && self.entries.contains_key(b)
                    && self.entries[a].arrival < self.entries[b].arrival
                    ==> self.entries[a].priority >= self.entries[b].priority,
            self.is_head(head),
            self.entries.contains_key(other),
            other != head,
        ensures
            self.entries[head].arrival < self.entries[other].arrival,
    {
        assert(self.entries[head].served_before(self.entries[other]));
        if self.entries[other].arrival < self.entries[head].arrival {
            assert(self.entries[other].priority >= self.entries[head].priority);
        }
    }

    /// A message that was alone in the queue when it was enqueued is the
    /// next to serve.
    pub proof fn alone_is_head(self, id: Seq<char>, priority: i32, created_at: u128, ttl: u64)
        requires
            self.is_empty(),
        ensures
            self.pushed(id, priority, created_at, ttl).is_head(id),
    {
        let after = self.pushed(id, priority, created_at, ttl);
        assert forall|other: Seq<char>| #[trigger]
            after.entries.contains_key(other) && other != id implies after.entries[id].served_before(
            after.entries[other],
        ) by {
            assert(self.entries.contains_key(other));
        }
    }

    /// An accepted message is pending with the scheduling data it was given,
    /// numbered after every earlier arrival, and every other message is as
    /// it was.
    pub proof fn pushed_adds_one(
        self,
        id: Seq<char>,
        priority: i32,
        created_at: u128,
        ttl: u64,
        other: Seq<char>,
    )
        requires
            self.valid(),
            other != id,
        ensures
            self.pushed(id, priority, created_at, ttl).entries.contains_key(id),
            self.pushed(id, priority, created_at, ttl).entries[id] == (Scheduled {
                priority,
                arrival: self.arrivals,
                created_at,
                ttl,
            }),
            self.pushed(id, priority, created_at, ttl).entries.contains_key(other)
                == self.entries.contains_key(other),
            self.entries.contains_key(other) ==> self.pushed(
                id,
                priority,
                created_at,
                ttl,
            ).entries[other] == self.entries[other] && self.entries[other].arrival
                < self.arrivals,
    {
    }

    /// A dequeued message is no longer pending, so a dequeue that follows
    /// cannot serve it; every other message is as it was.
    pub proof fn pulled_is_gone(self, id: Seq<char>, other: Seq<char>)
        requires
            other != id,
        ensures
            !self.pulled(id).entries.contains_key(id),
            !self.pulled(id).is_head(id),
            self.pulled(id).entries.contains_key(other) == self.entries.contains_key(other),
            self.entries.contains_key(other) ==> self.pulled(id).entries[other]
                == self.entries[other],
    {
    }

    /// A message that is not pending does not become pending unless it is
    /// enqueued: no dequeue, no sweep and no enqueue of another message
    /// brings it back.
    pub proof fn absent_until_pushed(
        self,
        id: Seq<char>,
        other: Seq<char>,
        priority: i32,
        created_at: u128,
        ttl: u64,
        now: u128,
    )
        requires
            !self.entries.contains_key(id),
            other != id,
        ensures
            !self.pulled(other).entries.contains_key(id),
            !self.swept(now).entries.contains_key(id),
            !self.pushed(other, priority, created_at, ttl).entries.contains_key(id),
    {
    }

    /// A sweep removes the messages whose time-to-live has passed, and only
    /// those: a pending message survives the sweep exactly if it has not
    /// expired, and a survivor is as it was.
    pub proof fn sweep_takes_the_expired_only(self, now: u128, id: Seq<char>)
        requires
            self.entries.contains_key(id),
        ensures
            self.swept(now).entries.contains_key(id) <==> !self.entries[id].expired_at(now),
            self.swept(now).entries.contains_key(id) ==> self.swept(now).entries[id]
                == self.entries[id],
            self.swept(now).arrivals == self.arrivals,
    {
    }

    /// A message that has expired stays expired, so a later sweep removes
    /// whatever an earlier one would have removed: sweeping at one time and
    /// then at a later one leaves what the later sweep alone leaves.
    pub proof fn later_sweep_subsumes_earlier(self, earlier: u128, later: u128)
        requires
            earlier <= later,
        ensures
            self.swept(earlier).swept(later) == self.swept(later),
    {
        assert(self.swept(earlier).swept(later).entries =~= self.swept(later).entries);
    }
}

} // verus!
