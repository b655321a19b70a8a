//! The in-memory index of pending messages: a keyed max-priority queue from
//! message id to scheduling record.
//!
//! The queue itself is `keyed_priority_queue::KeyedPriorityQueue`. Nothing in
//! this file is proved: it declares the type, names what a queue holds, and
//! states for each method the engine calls what that method does to the
//! contents. Everything else in the crate is verified against these
//! statements.

use keyed_priority_queue::KeyedPriorityQueue;
use std::hash::BuildHasher;
use std::hash::Hash;
use vstd::prelude::*;

verus! {

/// The scheduling record the index keeps per message id, as the tuple the
/// queue orders by: `(priority, precedence, created_at, ttl)`.
///
/// Tuples compare lexicographically, so the queue serves the greatest
/// priority first and, among equal priorities, the greatest precedence.
pub type Rank = (i32, u64, u128, u64);

#[verifier::external_type_specification]
#[verifier::external_body]
#[verifier::reject_recursive_types(TKey)]
#[verifier::reject_recursive_types(TPriority)]
#[verifier::reject_recursive_types(S)]
pub struct ExKeyedPriorityQueue<TKey: Hash + Eq, TPriority: Ord, S: BuildHasher>(
    KeyedPriorityQueue<TKey, TPriority, S>,
);

/// What a queue holds: the record stored under each id.
pub uninterp spec fn index_entries(index: KeyedPriorityQueue<String, (i32, u64, u128, u64)>) -> Map<Seq<char>, (i32, u64, u128, u64)>;

/// The order on records that the queue pops by: the lexicographic order of
/// the tuple, which is what `Ord` is for tuples of integers.
pub open spec fn rank_le(a: Rank, b: Rank) -> bool {
    ||| a.0 < b.0
    ||| a.0 == b.0 && a.1 < b.1
    ||| a.0 == b.0 && a.1 == b.1 && a.2 < b.2
    ||| a.0 == b.0 && a.1 == b.1 && a.2 == b.2 && a.3 <= b.3
}

/// `KeyedPriorityQueue::new`: a queue that holds nothing.
#[verifier::external_body]
pub(crate) fn index_new() -> (fresh: KeyedPriorityQueue<String, Rank>)
    ensures
        index_entries(fresh) == (Map::<Seq<char>, Rank>::empty()),
{
    KeyedPriorityQueue::new()
}

/// `KeyedPriorityQueue::push`: stores `rank` under `id`, replacing the record
/// of an id that is already present, and returns the record it replaced.
/// Every other id keeps its record.
#[verifier::external_body]
pub(crate) fn index_push(
    index: &mut KeyedPriorityQueue<String, Rank>,
    id: String,
    rank: Rank,
) -> (replaced: Option<Rank>)
    ensures
        index_entries(*final(index)) == index_entries(*old(index)).insert(id@, rank),
        replaced == if index_entries(*old(index)).contains_key(id@) {
            Some(index_entries(*old(index))[id@])
        } else {
            None::<Rank>
        },
{
    index.push(id, rank)
}

/// `KeyedPriorityQueue::pop`: takes out an entry whose record no other
/// record exceeds, and returns it with its id; `None`, and no change, when
/// the queue holds nothing. Which of several equal greatest records leaves is
/// not stated.
#[verifier::external_body]
pub(crate) fn index_pop(index: &mut KeyedPriorityQueue<String, Rank>) -> (top: Option<(String, Rank)>)
    ensures
        match top {
            Some((id, rank)) => {
                &&& index_entries(*old(index)).contains_key(id@)
                &&& index_entries(*old(index))[id@] == rank
                &&& forall|other: Seq<char>| #[trigger]
                    index_entries(*old(index)).contains_key(other) ==> rank_le(
                        index_entries(*old(index))[other],
                        rank,
                    )
                &&& index_entries(*final(index)) == index_entries(*old(index)).remove(id@)
            },
            None => {
                &&& index_entries(*old(index)) == (Map::<Seq<char>, Rank>::empty())
                &&& index_entries(*final(index)) == index_entries(*old(index))
            },
        },
{
    index.pop()
}

/// `KeyedPriorityQueue::remove`: takes out the entry stored under `id`, if
/// there is one, and returns its record. Every other id keeps its record.
#[verifier::external_body]
pub(crate) fn index_remove(index: &mut KeyedPriorityQueue<String, Rank>, id: &str) -> (removed: Option<Rank>)
    ensures
        index_entries(*final(index)) == index_entries(*old(index)).remove(id@),
        removed == if index_entries(*old(index)).contains_key(id@) {
            Some(index_entries(*old(index))[id@])
        } else {
            None::<Rank>
        },
{
    index.remove(id)
}

/// `KeyedPriorityQueue::get_priority`: the record stored under `id`, if
/// there is one.
#[verifier::external_body]
pub(crate) fn index_get(index: &KeyedPriorityQueue<String, Rank>, id: &str) -> (found: Option<Rank>)
    ensures
        found == if index_entries(*index).contains_key(id@) {
            Some(index_entries(*index)[id@])
        } else {
            None::<Rank>
        },
{
    index.get_priority(id).copied()
}

/// `KeyedPriorityQueue::len`: how many entries the queue holds.
#[verifier::external_body]
pub(crate) fn index_len(index: &KeyedPriorityQueue<String, Rank>) -> (count: usize)
    ensures
        count == index_entries(*index).dom().len(),
{
    index.len()
}

/// `KeyedPriorityQueue::iter`, collected: every entry of the queue once, as
/// id and record, in an order that is not stated.
#[verifier::external_body]
pub(crate) fn index_list(index: &KeyedPriorityQueue<String, Rank>) -> (all: Vec<(String, Rank)>)
    ensures
        forall|i: int|
            0 <= i < all@.len() ==> index_entries(*index).contains_key(#[trigger] all@[i].0@)
                && index_entries(*index)[all@[i].0@] == all@[i].1,
        forall|i: int, j: int|
            0 <= i < j < all@.len() ==> #[trigger] all@[i].0@ != #[trigger] all@[j].0@,
        forall|id: Seq<char>| #[trigger]
            index_entries(*index).contains_key(id) ==> exists|i: int|
                0 <= i < all@.len() && #[trigger] all@[i].0@ == id,
{
    index.iter().map(|(id, rank)| (id.clone(), *rank)).collect()
}

} // verus!
