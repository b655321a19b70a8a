//! The queue engine: the priority index of pending messages and the rules
//! for enqueueing, dequeueing and expiring them.
//!
//! Every operation that involves the store is split where the store is
//! touched. The first half decides what is to be done with which file and
//! returns that as a value; the caller does it and hands the outcome to the
//! second half, which settles the result. The engine is meant to sit behind
//! one lock that the caller holds across all halves of an operation.

use crate::clock::{clock_start, nanos_since};
use crate::config::Config;
use crate::message_id::{is_message_id, new_message_id};
use crate::priority_index::{
    index_entries, index_get, index_len, index_list, index_new, index_pop, index_push,
    index_remove, rank_le, Rank,
};
use crate::queue_state::{QueueState, Scheduled, NANOS_PER_SECOND};
use crate::store::{build_file_path, message_file_path, QueueError, StoreError};
use keyed_priority_queue::KeyedPriorityQueue;
use tokio::time::Instant;
use vstd::prelude::*;

verus! {

/// Seconds between two sweeps of a handler that deletes expired messages.
pub const SWEEP_INTERVAL_SECONDS: u64 = 5;

/// Scheduling metadata of one message, as it is handed around at enqueue time.
#[derive(Debug, Clone, PartialEq, Eq)]
pub struct QueueItem {
    pub id: String,
    /// Time-to-live in seconds.
    pub expiry: u64,
    /// Nanoseconds between the handler's construction and the enqueue.
    pub created_at: u128,
}

/// A message as it is delivered to a consumer.
#[derive(Debug, Clone, PartialEq, Eq)]
pub struct MessageItem {
    pub id: String,
    pub data: String,
}

/// An enqueue that waits for its payload to be written: `data` is to be
/// stored at `file_path`, and the outcome handed to
/// [`MessageHandler::push_written`] together with this value.
#[derive(Debug, Clone, PartialEq, Eq)]
pub struct PendingPush {
    pub item: QueueItem,
    pub priority: i32,
    pub file_path: String,
    pub data: String,
}

impl PendingPush {
    /// Whether this is the enqueue of `data` at `priority` that a handler in
    /// state `handler` stages under id `id` at time `created_at`.
    pub open spec fn stages(
        self,
        handler: QueueState,
        id: Seq<char>,
        created_at: u128,
        data: Seq<char>,
        priority: i32,
    ) -> bool {
        &&& self.item.id@ == id
        &&& self.item.created_at == created_at
        &&& self.item.expiry == handler.retention
        &&& self.priority == priority
        &&& self.data@ == data
        &&& self.file_path@ == message_file_path(handler.store_dir, id)
    }
}

/// A dequeue that waits for its payload to be read: the file at `file_path`
/// is to be read, and the outcome handed to [`PendingPull::read_done`].
#[derive(Debug, Clone, PartialEq, Eq)]
pub struct PendingPull {
    pub id: String,
    pub file_path: String,
}

/// A dequeue that waits for its file to be deleted: the file at `file_path`
/// is to be removed, and the outcome handed to [`PendingDelete::delete_done`].
#[derive(Debug, Clone, PartialEq, Eq)]
pub struct PendingDelete {
    pub item: MessageItem,
    pub file_path: String,
}

/// A message that a sweep has taken off the index: the file at `file_path`
/// is to be removed, and the outcome handed to
/// [`ExpiredMessage::delete_done`].
#[derive(Debug, Clone, PartialEq, Eq)]
pub struct ExpiredMessage {
    pub id: String,
    pub file_path: String,
}

impl PendingPull {
    /// Second step of a dequeue: with the payload read, the file is to be
    /// deleted next; a failed read ends the dequeue with that failure, and
    /// the file is left alone.
    pub fn read_done(self, read: Result<String, StoreError>) -> (next: Result<
        PendingDelete,
        QueueError,
    >)
        ensures
            match read {
                Ok(data) => next matches Ok(pending) && pending.item.id@ == self.id@
                    && pending.item.data@ == data@ && pending.file_path@ == self.file_path@,
                Err(e) => next == Err::<PendingDelete, QueueError>(QueueError::StoreRead(e)),
            },
    {
        match read {
            Ok(data) => Ok(
                PendingDelete {
                    item: MessageItem { id: self.id, data },
                    file_path: self.file_path,
                },
            ),
            Err(e) => Err(QueueError::StoreRead(e)),
        }
    }
}

impl PendingDelete {
    /// Last step of a dequeue: with the file deleted, the message is
    /// delivered; a failed delete ends the dequeue with that failure.
    pub fn delete_done(self, deleted: Result<(), StoreError>) -> (delivered: Result<
        MessageItem,
        QueueError,
    >)
        ensures
            match deleted {
                Ok(_) => delivered matches Ok(item) && item.id@ == self.item.id@ && item.data@
                    == self.item.data@,
                Err(e) => delivered == Err::<MessageItem, QueueError>(QueueError::StoreDelete(e)),
            },
    {
        match deleted {
            Ok(_) => Ok(self.item),
            Err(e) => Err(QueueError::StoreDelete(e)),
        }
    }
}

impl ExpiredMessage {
    /// Settles the removal of one expired message: its id once the file is
    /// gone, the failure otherwise. One message's failure says nothing of
    /// the others of the same sweep.
    pub fn delete_done(self, deleted: Result<(), StoreError>) -> (removed: Result<
        String,
        QueueError,
    >)
        ensures
            match deleted {
                Ok(_) => removed matches Ok(id) && id@ == self.id@,
                Err(e) => removed == Err::<String, QueueError>(QueueError::StoreDelete(e)),
            },
    {
        match deleted {
            Ok(_) => Ok(self.id),
            Err(e) => Err(QueueError::StoreDelete(e)),
        }
    }
}

/// The queue engine.
pub struct MessageHandler {
    pq: KeyedPriorityQueue<String, Rank>,
    cfg: Config,
    pub message_store_dir: String,
    delete_expired_messages: bool,
    epoch: Instant,
    next_precedence: u64,
}

/// Whether a message enqueued at `created_at` with a time-to-live of `ttl`
/// seconds has expired at `now`, both times in nanoseconds on one clock.
pub fn is_expired(created_at: u128, ttl: u64, now: u128) -> (expired: bool)
    ensures
        expired == (created_at + ttl * NANOS_PER_SECOND <= now),
{
    let ttl_nanos: u128 = (ttl as u128) * NANOS_PER_SECOND;
    match created_at.checked_add(ttl_nanos) {
        Some(deadline) => deadline <= now,
        None => false,
    }
}

/// Whether entry `i` of a listing of the index has expired at `now`.
spec fn listed_expired(all: Seq<(String, Rank)>, i: int, now: u128) -> bool {
    scheduled(all[i].1).expired_at(now)
}

/// The record of the index read as scheduling data. Precedence counts down
/// from `u64::MAX`, one per arrival.
spec fn scheduled(rank: Rank) -> Scheduled {
    Scheduled {
        priority: rank.0,
        arrival: (u64::MAX - rank.1) as nat,
        created_at: rank.2,
        ttl: rank.3,
    }
}

impl View for MessageHandler {
    type V = QueueState;

    closed spec fn view(&self) -> QueueState {
        QueueState {
            entries: Map::new(
                |id: Seq<char>| index_entries(self.pq).contains_key(id),
                |id: Seq<char>| scheduled(index_entries(self.pq)[id]),
            ),
            arrivals: (u64::MAX - self.next_precedence) as nat,
            retention: self.cfg.message_retention_seconds,
            store_dir: self.message_store_dir@,
            sweeps: self.delete_expired_messages,
        }
    }
}

impl MessageHandler {
    /// The invariant of a handler, which every constructor establishes and
    /// every operation keeps.
    pub open spec fn wf(&self) -> bool {
        self@.valid()
    }

    /// Builds an empty handler that keeps its payload files under
    /// `message_store_dir` and gives every message the retention of `cfg`.
    /// Whether it is to be swept is recorded, not acted on: see
    /// [`MessageHandler::sweep_interval_seconds`].
    pub fn new(cfg: Config, message_store_dir: String, delete_expired_messages: bool) -> (handler:
        MessageHandler)
        ensures
            handler.wf(),
            handler@ == QueueState::initial(
                cfg.message_retention_seconds,
                message_store_dir@,
                delete_expired_messages,
            ),
    {
        let handler = MessageHandler {
            pq: index_new(),
            cfg,
            message_store_dir,
            delete_expired_messages,
            epoch: clock_start(),
            next_precedence: u64::MAX,
        };
        assert(handler@ =~= QueueState::initial(
            cfg.message_retention_seconds,
            message_store_dir@,
            delete_expired_messages,
        ));
        handler
    }

    /// How long to wait between two sweeps, or `None` for a handler that is
    /// not to be swept at all.
    pub fn sweep_interval_seconds(&self) -> (interval: Option<u64>)
        ensures
            interval == if self@.sweeps {
                Some(SWEEP_INTERVAL_SECONDS)
            } else {
                None::<u64>
            },
    {
        if self.delete_expired_messages {
            Some(SWEEP_INTERVAL_SECONDS)
        } else {
            None
        }
    }

    /// The path of the payload file of message `id`.
    pub fn get_message_file_path(&self, id: String) -> (path: String)
        ensures
            path@ == message_file_path(self@.store_dir, id@),
    {
        build_file_path(self.message_store_dir.as_str(), id.as_str())
    }

    /// Whether the handler can accept another message. It cannot once it has
    /// accepted `u64::MAX` of them.
    pub fn has_room(&self) -> (room: bool)
        ensures
            room == self@.has_room(),
    {
        self.next_precedence > 0
    }

    /// How many messages are pending.
    pub fn len(&self) -> (count: usize)
        requires
            self.wf(),
        ensures
            count == self@.entries.dom().len(),
    {
        assert(self@.entries.dom() =~= index_entries(self.pq).dom());
        index_len(&self.pq)
    }

    /// Whether nothing is pending.
    pub fn is_empty(&self) -> (empty: bool)
        requires
            self.wf(),
        ensures
            empty == self@.is_empty(),
    {
        assert(self@.entries.dom() =~= index_entries(self.pq).dom());
        let count = index_len(&self.pq);
        proof {
            if count == 0 {
                self@.entries.dom().lemma_len0_is_empty();
            } else {
                assert(!self@.entries.dom().is_empty());
                let id = choose|id: Seq<char>| self@.entries.dom().contains(id);
                assert(self@.entries.contains_key(id));
            }
        }
        count == 0
    }

    /// Whether message `id` is pending.
    pub fn contains(&self, id: &str) -> (pending: bool)
        ensures
            pending == self@.entries.contains_key(id@),
    {
        index_get(&self.pq, id).is_some()
    }

    /// The priority of message `id`, if it is pending.
    pub fn get_priority(&self, id: &str) -> (priority: Option<i32>)
        ensures
            priority == if self@.entries.contains_key(id@) {
                Some(self@.entries[id@].priority)
            } else {
                None::<i32>
            },
    {
        match index_get(&self.pq, id) {
            Some(rank) => Some(rank.0),
            None => None,
        }
    }

    /// First half of an enqueue, for a given id and time: says what to write
    /// where. Nothing is staged for an id that is already pending, nor by a
    /// handler without room; the handler itself does not change until
    /// [`MessageHandler::push_written`].
    pub fn stage_push(&self, id: String, created_at: u128, data: String, priority: i32) -> (staged:
        Option<PendingPush>)
        ensures
            staged is Some <==> !self@.entries.contains_key(id@) && self@.has_room(),
            staged matches Some(pending) ==> pending.stages(
                self@,
                id@,
                created_at,
                data@,
                priority,
            ),
    {
        if self.next_precedence == 0 || index_get(&self.pq, id.as_str()).is_some() {
            return None;
        }
        let file_path = build_file_path(self.message_store_dir.as_str(), id.as_str());
        let item = QueueItem { id, expiry: self.cfg.message_retention_seconds, created_at };
        Some(PendingPush { item, priority, file_path, data })
    }

    /// First half of an enqueue: draws a new id, reads the clock, and says
    /// what to write where. `None` if the handler has no room, or if the id
    /// drawn is that of a pending message, and in no other case: a handler
    /// with room in which no message id is pending always stages the enqueue.
    pub fn push_message(&self, data: String, priority: i32) -> (staged: Option<PendingPush>)
        ensures
            !self@.has_room() ==> staged is None,
            staged is None ==> !self@.has_room() || exists|drawn: Seq<char>|
                is_message_id(drawn) && #[trigger] self@.entries.contains_key(drawn),
            staged matches Some(pending) ==> {
                &&& self@.has_room()
                &&& is_message_id(pending.item.id@)
                &&& !self@.entries.contains_key(pending.item.id@)
                &&& pending.stages(
                    self@,
                    pending.item.id@,
                    pending.item.created_at,
                    data@,
                    priority,
                )
            },
    {
        let id = new_message_id();
        let created_at = nanos_since(&self.epoch);
        let ghost drawn = id@;
        let staged = self.stage_push(id, created_at, data, priority);
        assert(staged is None && self@.has_room() ==> is_message_id(drawn)
            && self@.entries.contains_key(drawn));
        staged
    }

    /// Second half of an enqueue: given the outcome of the write, indexes the
    /// message and returns its id, or reports the failure and leaves the
    /// index as it was. A message whose id is already pending replaces it.
    pub fn push_written(&mut self, pending: PendingPush, written: Result<(), StoreError>) -> (pushed:
        Result<String, QueueError>)
        requires
            old(self).wf(),
            old(self)@.has_room(),
        ensures
            final(self).wf(),
            match written {
                Ok(_) => pushed matches Ok(id) && id@ == pending.item.id@ && final(self)@ == old(
                    self,
                )@.pushed(
                    pending.item.id@,
                    pending.priority,
                    pending.item.created_at,
                    pending.item.expiry,
                ),
                Err(e) => pushed == Err::<String, QueueError>(QueueError::StoreWrite(e))
                    && final(self)@ == old(self)@,
            },
    {
        match written {
            Err(e) => Err(QueueError::StoreWrite(e)),
            Ok(_) => {
                let id = pending.item.id;
                let rank: Rank = (
                    pending.priority,
                    self.next_precedence,
                    pending.item.created_at,
                    pending.item.expiry,
                );
                let _ = index_push(&mut self.pq, id.clone(), rank);
                self.next_precedence = self.next_precedence - 1;
                assert(self@ =~= old(self)@.pushed(
                    id@,
                    pending.priority,
                    pending.item.created_at,
                    pending.item.expiry,
                ));
                Ok(id)
            },
        }
    }

    /// First step of a dequeue: takes the message to serve next off the
    /// index and says which file to read. `None`, and no change, when nothing
    /// is pending. Whether the message has outlived its time-to-live is not
    /// looked at: only a sweep expires messages.
    pub fn pull_message(&mut self) -> (pulled: Option<PendingPull>)
        requires
            old(self).wf(),
        ensures
            final(self).wf(),
            match pulled {
                Some(pending) => {
                    &&& old(self)@.is_head(pending.id@)
                    &&& final(self)@ == old(self)@.pulled(pending.id@)
                    &&& pending.file_path@ == message_file_path(old(self)@.store_dir, pending.id@)
                },
                None => old(self)@.is_empty() && final(self)@ == old(self)@,
            },
    {
        match index_pop(&mut self.pq) {
            None => {
                assert(self@ =~= old(self)@);
                None
            },
            Some((id, rank)) => {
                let file_path = build_file_path(self.message_store_dir.as_str(), id.as_str());
                proof {
                    let before = index_entries(old(self).pq);
                    assert forall|other: Seq<char>| #[trigger]
                        old(self)@.entries.contains_key(other) && other != id@ implies old(
                        self,
                    )@.entries[id@].served_before(old(self)@.entries[other]) by {
                        assert(before.contains_key(other));
                        assert(rank_le(before[other], rank));
                        assert(old(self)@.entries[other] == scheduled(before[other]));
                        assert(old(self)@.entries[id@] == scheduled(rank));
                    }
                    assert(self@ =~= old(self)@.pulled(id@));
                }
                Some(PendingPull { id, file_path })
            },
        }
    }

    /// A sweep at a given time: takes every message that has expired at
    /// `now` off the index and says which files to remove. The messages that
    /// have not expired stay as they were. Each expired message is listed
    /// once; in which order is not stated.
    pub fn remove_expired_at(&mut self, now: u128) -> (expired: Vec<ExpiredMessage>)
        requires
            old(self).wf(),
        ensures
            final(self).wf(),
            final(self)@ == old(self)@.swept(now),
            forall|i: int|
                0 <= i < expired@.len() ==> {
                    &&& old(self)@.entries.contains_key(#[trigger] expired@[i].id@)
                    &&& old(self)@.entries[expired@[i].id@].expired_at(now)
                    &&& expired@[i].file_path@ == message_file_path(
                        old(self)@.store_dir,
                        expired@[i].id@,
                    )
                },
            forall|i: int, j: int|
                0 <= i < j < expired@.len() ==> #[trigger] expired@[i].id@
                    != #[trigger] expired@[j].id@,
            forall|id: Seq<char>|
                old(self)@.entries.contains_key(id) && #[trigger] old(self)@.entries[id].expired_at(
                    now,
                ) ==> exists|i: int| 0 <= i < expired@.len() && #[trigger] expired@[i].id@ == id,
    {
        let all = index_list(&self.pq);
        let mut expired: Vec<ExpiredMessage> = Vec::new();
        let ghost before = index_entries(self.pq);
        let ghost mut origin: Seq<int> = Seq::empty();
        let mut k: usize = 0;
        while k < all.len()
            invariant
                k <= all@.len(),
                before == index_entries(old(self).pq),
                self.message_store_dir == old(self).message_store_dir,
                self.cfg == old(self).cfg,
                self.delete_expired_messages == old(self).delete_expired_messages,
                self.next_precedence == old(self).next_precedence,
                forall|i: int|
                    0 <= i < all@.len() ==> before.contains_key(#[trigger] all@[i].0@)
                        && before[all@[i].0@] == all@[i].1,
                forall|i: int, j: int|
                    0 <= i < j < all@.len() ==> #[trigger] all@[i].0@ != #[trigger] all@[j].0@,
                forall|id: Seq<char>| #[trigger]
                    index_entries(self.pq).contains_key(id) ==> before.contains_key(id)
                        && index_entries(self.pq)[id] == before[id],
                forall|i: int|
                    0 <= i < all@.len() ==> (index_entries(self.pq).contains_key(
                        #[trigger] all@[i].0@,
                    ) <==> i >= k || !listed_expired(all@, i, now)),
                origin.len() == expired@.len(),
                forall|e: int|
                    0 <= e < expired@.len() ==> {
                        &&& 0 <= #[trigger] origin[e] < k
                        &&& expired@[e].id@ == all@[origin[e]].0@
                        &&& listed_expired(all@, origin[e], now)
                        &&& expired@[e].file_path@ == message_file_path(
                            self.message_store_dir@,
                            expired@[e].id@,
                        )
                    },
                forall|e: int, f: int|
                    0 <= e < f < expired@.len() ==> #[trigger] origin[e] < #[trigger] origin[f],
                forall|i: int|
                    0 <= i < k && #[trigger] listed_expired(all@, i, now) ==> exists|e: int|
                        0 <= e < expired@.len() && #[trigger] origin[e] == i,
            decreases all@.len() - k,
        {
            let rank: Rank = all[k].1;
            if is_expired(rank.2, rank.3, now) {
                let id: String = all[k].0.clone();
                let _ = index_remove(&mut self.pq, id.as_str());
                let file_path = build_file_path(self.message_store_dir.as_str(), id.as_str());
                let ghost found = origin;
                expired.push(ExpiredMessage { id, file_path });
                proof {
                    origin = origin.push(k as int);
                    assert forall|i: int|
                        0 <= i < k + 1 && #[trigger] listed_expired(all@, i, now) implies exists|
                        e: int,
                    | 0 <= e < expired@.len() && #[trigger] origin[e] == i by {
                        if i < k {
                            let e = choose|e: int| 0 <= e < found.len() && #[trigger] found[e] == i;
                            assert(origin[e] == i);
                        } else {
                            assert(origin[expired@.len() - 1] == i);
                        }
                    }
                }
            }
            k = k + 1;
        }
        proof {
            assert forall|id: Seq<char>|
                before.contains_key(id) && !scheduled(before[id]).expired_at(
                    now,
                ) implies index_entries(self.pq).contains_key(id) by {
                let i = choose|i: int| 0 <= i < all@.len() && #[trigger] all@[i].0@ == id;
                assert(index_entries(self.pq).contains_key(all@[i].0@));
            }
            assert forall|id: Seq<char>| #[trigger]
                index_entries(self.pq).contains_key(id) implies !scheduled(before[id]).expired_at(
                now,
            ) by {
                let i = choose|i: int| 0 <= i < all@.len() && #[trigger] all@[i].0@ == id;
                assert(index_entries(self.pq).contains_key(all@[i].0@));
            }
            assert(self@ =~= old(self)@.swept(now));
            old(self)@.swept_is_valid(now);
            assert forall|id: Seq<char>|
                old(self)@.entries.contains_key(id) && #[trigger] old(self)@.entries[id].expired_at(
                    now,
                ) implies exists|e: int|
                0 <= e < expired@.len() && #[trigger] expired@[e].id@ == id by {
                let i = choose|i: int| 0 <= i < all@.len() && #[trigger] all@[i].0@ == id;
                assert(listed_expired(all@, i, now));
                let e = choose|e: int| 0 <= e < expired@.len() && #[trigger] origin[e] == i;
                assert(expired@[e].id@ == id);
            }
            assert forall|e: int| 0 <= e < expired@.len() implies {
                &&& old(self)@.entries.contains_key(#[trigger] expired@[e].id@)
                &&& old(self)@.entries[expired@[e].id@].expired_at(now)
                &&& expired@[e].file_path@ == message_file_path(
                    old(self)@.store_dir,
                    expired@[e].id@,
                )
            } by {
                let i = origin[e];
                assert(before.contains_key(all@[i].0@));
                assert(listed_expired(all@, i, now));
            }
            assert forall|e: int, f: int| 0 <= e < f < expired@.len() implies #[trigger] expired@[e].id@
                != #[trigger] expired@[f].id@ by {
                assert(origin[e] < origin[f]);
                assert(all@[origin[e]].0@ != all@[origin[f]].0@);
            }
        }
        expired
    }

    /// A sweep now: reads the clock and does
    /// [`MessageHandler::remove_expired_at`] for that time.
    pub fn remove_expired_messages(&mut self) -> (expired: Vec<ExpiredMessage>)
        requires
            old(self).wf(),
        ensures
            final(self).wf(),
            exists|now: u128| final(self)@ == #[trigger] old(self)@.swept(now),
            forall|i: int|
                0 <= i < expired@.len() ==> {
                    &&& old(self)@.entries.contains_key(#[trigger] expired@[i].id@)
                    &&& !final(self)@.entries.contains_key(expired@[i].id@)
                    &&& expired@[i].file_path@ == message_file_path(
                        old(self)@.store_dir,
                        expired@[i].id@,
                    )
                },
            forall|id: Seq<char>|
                old(self)@.entries.contains_key(id) && !final(self)@.entries.contains_key(id)
                    ==> exists|i: int| 0 <= i < expired@.len() && #[trigger] expired@[i].id@ == id,
    {
        let now = nanos_since(&self.epoch);
        self.remove_expired_at(now)
    }
}

} // verus!
