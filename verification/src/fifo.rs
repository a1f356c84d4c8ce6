//! The bounded queues of 16-bit words that sit between the program and the serial interrupt.
//!
//! A queue is a `heapless::Deque<u16, 16>`. Its contents are named by [`fifo_contents`], front
//! first, and the functions of this module say over that name what each method of the deque does.

use heapless::Deque;
use vstd::prelude::*;

verus! {

/// How many words a queue holds at most.
pub const FIFO_CAPACITY: usize = 16;

/// The deque of `heapless`, as an opaque type.
#[verifier::external_type_specification]
#[verifier::external_body]
#[verifier::reject_recursive_types(T)]
pub struct ExDeque<T, const N: usize>(heapless::Deque<T, N>);

/// The words that a queue holds, the front one first.
pub uninterp spec fn fifo_contents(fifo: Deque<u16, 16>) -> Seq<u16>;

/// What a queue holds once `word` has been offered to it: a full queue stays as it is.
pub open spec fn fifo_push(queue: Seq<u16>, word: u16) -> Seq<u16> {
    if queue.len() < FIFO_CAPACITY {
        queue.push(word)
    } else {
        queue
    }
}

/// `heapless::Deque::new`: the new deque is empty.
#[verifier::external_body]
pub(crate) fn fifo_new() -> (fifo: Deque<u16, 16>)
    ensures
        fifo_contents(fifo) == Seq::<u16>::empty(),
{
    Deque::new()
}

/// `heapless::Deque::push_back`: the item goes to the back of the deque, or comes back in `Err`
/// with the deque unchanged when sixteen items are held already.
#[verifier::external_body]
pub(crate) fn fifo_push_back(fifo: &mut Deque<u16, 16>, item: u16) -> (result: Result<(), u16>)
    ensures
        fifo_contents(*final(fifo)) == fifo_push(fifo_contents(*old(fifo)), item),
        result == (if fifo_contents(*old(fifo)).len() < FIFO_CAPACITY {
            Ok::<(), u16>(())
        } else {
            Err(item)
        }),
{
    fifo.push_back(item)
}

/// `heapless::Deque::pop_front`: the front item leaves the deque and is returned, or `None` is
/// returned and the deque stays empty.
#[verifier::external_body]
pub(crate) fn fifo_pop_front(fifo: &mut Deque<u16, 16>) -> (item: Option<u16>)
    ensures
        item == fifo_front(fifo_contents(*old(fifo))),
        fifo_contents(*final(fifo)) == fifo_pop(fifo_contents(*old(fifo))),
{
    fifo.pop_front()
}

/// `heapless::Deque::is_empty`: whether the deque holds nothing.
#[verifier::external_body]
pub(crate) fn fifo_is_empty(fifo: &Deque<u16, 16>) -> (empty: bool)
    ensures
        empty == (fifo_contents(*fifo).len() == 0),
{
    fifo.is_empty()
}

/// What a queue holds once all of `words` have been offered to it, one after the other: it takes
/// them in order until it is full, and the rest is lost.
pub open spec fn fifo_append(queue: Seq<u16>, words: Seq<u16>) -> Seq<u16> {
    if queue.len() + words.len() <= FIFO_CAPACITY {
        queue + words
    } else if queue.len() < FIFO_CAPACITY {
        queue + words.take(FIFO_CAPACITY - queue.len())
    } else {
        queue
    }
}

/// What a queue holds once its front word has been taken out, if it had one.
pub open spec fn fifo_pop(queue: Seq<u16>) -> Seq<u16> {
    if queue.len() > 0 {
        queue.skip(1)
    } else {
        queue
    }
}

/// The word at the front of a queue, if it has one.
pub open spec fn fifo_front(queue: Seq<u16>) -> Option<u16> {
    if queue.len() > 0 {
        Some(queue[0])
    } else {
        None
    }
}

/// How many words find no room when a queue of `queued` words is offered `offered` more.
pub open spec fn fifo_lost(queued: nat, offered: nat) -> int {
    if queued + offered > FIFO_CAPACITY {
        queued + offered - FIFO_CAPACITY
    } else {
        0
    }
}

/// Empties `source` into `target`, front word first. What does not fit is lost; the number of
/// such words is returned.
pub(crate) fn fifo_drain(source: &mut Deque<u16, 16>, target: &mut Deque<u16, 16>) -> (lost: usize)
    requires
        fifo_contents(*old(source)).len() <= FIFO_CAPACITY,
        fifo_contents(*old(target)).len() <= FIFO_CAPACITY,
    ensures
        lost == fifo_lost(fifo_contents(*old(target)).len(), fifo_contents(*old(source)).len()),
        fifo_contents(*final(source)) == Seq::<u16>::empty(),
        fifo_contents(*final(target)) == fifo_append(
            fifo_contents(*old(target)),
            fifo_contents(*old(source)),
        ),
{
    let ghost words = fifo_contents(*source);
    let ghost before = fifo_contents(*target);
    let ghost mut moved: nat = 0;
    let mut lost: usize = 0;
    while !fifo_is_empty(source)
        invariant
            moved <= words.len() <= FIFO_CAPACITY,
            before.len() <= FIFO_CAPACITY,
            lost == fifo_lost(before.len(), moved),
            fifo_contents(*source) == words.skip(moved as int),
            fifo_contents(*target) == fifo_append(before, words.take(moved as int)),
        decreases fifo_contents(*source).len(),
    {
        match fifo_pop_front(source) {
            Some(word) => {
                if fifo_push_back(target, word).is_err() {
                    lost = lost + 1;
                }
                proof {
                    lemma_append_one_more(before, words, moved as int);
                    moved = moved + 1;
                }
            },
            None => {},
        }
    }
    proof {
        assert(words.take(moved as int) =~= words);
    }
    lost
}

/// Offering one word more is one more push.
proof fn lemma_append_one_more(queue: Seq<u16>, words: Seq<u16>, n: int)
    requires
        0 <= n < words.len(),
    ensures
        fifo_append(queue, words.take(n + 1)) == fifo_push(
            fifo_append(queue, words.take(n)),
            words[n],
        ),
{
    assert(words.take(n + 1) =~= words.take(n).push(words[n]));
    if queue.len() + n + 1 <= FIFO_CAPACITY {
        assert(queue + words.take(n).push(words[n]) =~= (queue + words.take(n)).push(words[n]));
    } else if queue.len() < FIFO_CAPACITY {
        let room = FIFO_CAPACITY - queue.len();
        assert(words.take(n + 1).take(room) =~= words.take(n).take(room));
    }
}

} // verus!
