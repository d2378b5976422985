//! The bounded queues between the video source and the user interface.
//!
//! Both are `crossbeam::queue::ArrayQueue`s. They are only ever touched through an exclusive
//! reference, so nothing else pushes or pops while a call runs.

use crossbeam::queue::ArrayQueue;
use vstd::prelude::*;

use crate::frame::VideoFrame;
use crate::video_source::VideoSourceState;

verus! {

/// `crossbeam::queue::ArrayQueue`, a bounded first-in first-out queue.
#[verifier::external_type_specification]
#[verifier::external_body]
#[verifier::reject_recursive_types(T)]
pub struct ExArrayQueue<T>(crossbeam::queue::ArrayQueue<T>);

/// The largest capacity that is asked of a queue.
pub const MAX_CAPACITY: usize = 1024;

/// A queue of at most `capacity` items after `item` was pushed: when it is full, the oldest item
/// makes room.
pub open spec fn pushed<A>(items: Seq<A>, capacity: nat, item: A) -> Seq<A> {
    if items.len() < capacity {
        items.push(item)
    } else {
        items.push(item).drop_first()
    }
}

/// The frames in a queue, the oldest first.
pub uninterp spec fn frames_in(queue: ArrayQueue<VideoFrame>) -> Seq<VideoFrame>;

/// How many frames a queue was made for.
pub uninterp spec fn frame_capacity(queue: ArrayQueue<VideoFrame>) -> nat;

/// The states in a queue, the oldest first.
pub uninterp spec fn states_in(queue: ArrayQueue<VideoSourceState>) -> Seq<VideoSourceState>;

/// How many states a queue was made for.
pub uninterp spec fn state_capacity(queue: ArrayQueue<VideoSourceState>) -> nat;

/// `ArrayQueue::new`: an empty queue with room for `capacity` frames. The call panics for no
/// capacity and for one that is too large, so the capacity is bounded on both sides.
#[verifier::external_body]
pub(crate) fn new_frame_queue(capacity: usize) -> (queue: ArrayQueue<VideoFrame>)
    requires
        0 < capacity <= MAX_CAPACITY,
    ensures
        frames_in(queue) == Seq::<VideoFrame>::empty(),
        frame_capacity(queue) == capacity,
{
    ArrayQueue::new(capacity)
}

/// `ArrayQueue::pop`: takes the oldest frame out of the queue, or nothing when it is empty.
#[verifier::external_body]
pub(crate) fn pop_frame(queue: &mut ArrayQueue<VideoFrame>) -> (frame: Option<VideoFrame>)
    ensures
        frame_capacity(*final(queue)) == frame_capacity(*old(queue)),
        frame == (if frames_in(*old(queue)).len() == 0 {
            None
        } else {
            Some(frames_in(*old(queue)).first())
        }),
        frames_in(*final(queue)) == (if frames_in(*old(queue)).len() == 0 {
            frames_in(*old(queue))
        } else {
            frames_in(*old(queue)).drop_first()
        }),
{
    queue.pop()
}

/// `ArrayQueue::force_push`: the frame becomes the newest of the queue; when the queue is full, the
/// oldest frame is replaced and comes back.
#[verifier::external_body]
pub(crate) fn push_frame(queue: &mut ArrayQueue<VideoFrame>, frame: VideoFrame) -> (replaced: Option<
    VideoFrame,
>)
    ensures
        frame_capacity(*final(queue)) == frame_capacity(*old(queue)),
        frames_in(*final(queue)) == pushed(
            frames_in(*old(queue)),
            frame_capacity(*old(queue)),
            frame,
        ),
        replaced == (if frames_in(*old(queue)).len() < frame_capacity(*old(queue)) {
            None
        } else {
            Some(frames_in(*old(queue)).first())
        }),
{
    queue.force_push(frame)
}

/// `ArrayQueue::new`: an empty queue with room for `capacity` states. The call panics for no
/// capacity and for one that is too large, so the capacity is bounded on both sides.
#[verifier::external_body]
pub(crate) fn new_state_queue(capacity: usize) -> (queue: ArrayQueue<VideoSourceState>)
    requires
        0 < capacity <= MAX_CAPACITY,
    ensures
        states_in(queue) == Seq::<VideoSourceState>::empty(),
        state_capacity(queue) == capacity,
{
    ArrayQueue::new(capacity)
}

/// `ArrayQueue::pop`: takes the oldest state out of the queue, or nothing when it is empty.
#[verifier::external_body]
pub(crate) fn pop_state(queue: &mut ArrayQueue<VideoSourceState>) -> (state: Option<
    VideoSourceState,
>)
    ensures
        state_capacity(*final(queue)) == state_capacity(*old(queue)),
        state == (if states_in(*old(queue)).len() == 0 {
            None
        } else {
            Some(states_in(*old(queue)).first())
        }),
        states_in(*final(queue)) == (if states_in(*old(queue)).len() == 0 {
            states_in(*old(queue))
        } else {
            states_in(*old(queue)).drop_first()
        }),
{
    queue.pop()
}

/// `ArrayQueue::force_push`: the state becomes the newest of the queue; when the queue is full, the
/// oldest state is replaced and comes back.
#[verifier::external_body]
pub(crate) fn push_state(queue: &mut ArrayQueue<VideoSourceState>, state: VideoSourceState) -> (replaced: Option<
    VideoSourceState,
>)
    ensures
        state_capacity(*final(queue)) == state_capacity(*old(queue)),
        states_in(*final(queue)) == pushed(
            states_in(*old(queue)),
            state_capacity(*old(queue)),
            state,
        ),
        replaced == (if states_in(*old(queue)).len() < state_capacity(*old(queue)) {
            None
        } else {
            Some(states_in(*old(queue)).first())
        }),
{
    queue.force_push(state)
}

/// The items left after a run of pushes.
pub open spec fn pushed_all<A>(items: Seq<A>, capacity: nat, run: Seq<A>) -> Seq<A>
    decreases run.len(),
{
    if run.len() == 0 {
        items
    } else {
        pushed(pushed_all(items, capacity, run.drop_last()), capacity, run.last())
    }
}

/// A queue never holds more than its capacity, and the item that was pushed last is in it.
pub proof fn a_push_stays_within_capacity<A>(items: Seq<A>, capacity: nat, item: A)
    requires
        0 < capacity,
        items.len() <= capacity,
    ensures
        pushed(items, capacity, item).len() <= capacity,
        pushed(items, capacity, item).len() > 0,
        pushed(items, capacity, item).last() == item,
{
}

/// A queue holds the newest of all the items that were pushed into it, as many as it has room for,
/// in the order in which they came.
pub proof fn the_newest_items_are_kept<A>(items: Seq<A>, capacity: nat, run: Seq<A>)
    requires
        0 < capacity,
        items.len() <= capacity,
    ensures
        ({
            let all = items + run;
            pushed_all(items, capacity, run) == if all.len() <= capacity {
                all
            } else {
                all.skip(all.len() - capacity)
            }
        }),
    decreases run.len(),
{
    let all = items + run;
    if run.len() == 0 {
        assert(all =~= items);
    } else {
        let before = items + run.drop_last();
        the_newest_items_are_kept(items, capacity, run.drop_last());
        assert(all =~= before.push(run.last()));
        let kept = pushed_all(items, capacity, run.drop_last());
        if all.len() > capacity {
            if before.len() == capacity {
                assert(kept =~= before);
            }
            assert(pushed(kept, capacity, run.last()) =~= all.skip(all.len() - capacity));
        }
    }
}

} // verus!
