//! The queue of stereo frames between the emulator and the audio callback.

use std::sync::Arc;
use vstd::prelude::*;
use vstd::rwlock::{RwLock, RwLockPredicate};

verus! {

/// Ring buffer of stereo i16 frames.
///
/// It is *lossy* when full: new pushes are dropped.
pub struct Ring {
    // One extra slot so head==tail is unambiguously empty.
    buf: Vec<(i16, i16)>,
    cap: usize,
    head: usize,
    tail: usize,
}

/// Slots of a ring for `capacity_frames` frames.
pub open spec fn slots(capacity_frames: int) -> int {
    if capacity_frames < 1 {
        2
    } else {
        capacity_frames + 1
    }
}

/// A use of the queue, with what came of it.
pub enum QueueEvent {
    /// A frame was offered, and taken or dropped.
    Push { frame: (i16, i16), pushed: bool },
    /// The first frame was asked for.
    Pop { popped: Option<(i16, i16)> },
}

/// `event` leaves `after` in a queue of `capacity` frames, as
/// [`Ring::push_stereo`] and [`Ring::pop_stereo`] do it.
pub open spec fn occurs(
    before: Seq<(i16, i16)>,
    capacity: nat,
    event: QueueEvent,
    after: Seq<(i16, i16)>,
) -> bool {
    match event {
        QueueEvent::Push { frame, pushed } => {
            &&& pushed == (before.len() < capacity)
            &&& after == if pushed {
                before.push(frame)
            } else {
                before
            }
        },
        QueueEvent::Pop { popped: Some(frame) } => {
            before.len() > 0 && frame == before[0] && after == before.skip(1)
        },
        QueueEvent::Pop { popped: None } => before.len() == 0 && after == before,
    }
}

impl Ring {
    pub closed spec fn wf(self) -> bool {
        &&& self.cap >= 2
        &&& self.buf@.len() == self.cap
        &&& self.head < self.cap
        &&& self.tail < self.cap
    }

    /// Number of slots in use.
    closed spec fn used(self) -> int {
        if self.head >= self.tail {
            self.head - self.tail
        } else {
            self.cap - self.tail + self.head
        }
    }

    /// The slot `i` behind the tail.
    closed spec fn slot(self, i: int) -> int {
        if self.tail + i < self.cap {
            self.tail + i
        } else {
            self.tail + i - self.cap
        }
    }

    /// The frames in the queue, the one that leaves next first.
    pub closed spec fn view(self) -> Seq<(i16, i16)> {
        Seq::new(self.used() as nat, |i: int| self.buf@[self.slot(i)])
    }

    /// Number of frames that the queue can hold.
    pub closed spec fn capacity(self) -> nat {
        (self.cap - 1) as nat
    }

    /// The queue never holds more than its capacity.
    pub proof fn law_never_over_capacity(self)
        requires
            self.wf(),
        ensures
            self@.len() <= self.capacity(),
    {
    }

    /// An empty queue for `capacity_frames` frames, at least for one.
    pub fn new(capacity_frames: usize) -> (ring: Self)
        requires
            4 * slots(capacity_frames as int) <= isize::MAX,
        ensures
            ring.wf(),
            ring@ == Seq::<(i16, i16)>::empty(),
            ring.capacity() == slots(capacity_frames as int) - 1,
    {
        let cap: usize = if capacity_frames < 1 {
            2
        } else {
            capacity_frames + 1
        };
        let ring = Ring { buf: vec![(0, 0); cap], cap, head: 0, tail: 0 };
        proof {
            assert(ring@ == Seq::<(i16, i16)>::empty());
        }
        ring
    }

    /// Number of frames in the queue.
    pub fn len(&self) -> (n: usize)
        requires
            self.wf(),
        ensures
            n == self@.len(),
    {
        if self.head >= self.tail {
            self.head - self.tail
        } else {
            (self.cap - self.tail) + self.head
        }
    }

    /// Number of frames that the queue can hold.
    pub fn capacity_frames(&self) -> (n: usize)
        requires
            self.wf(),
        ensures
            n == self.capacity(),
    {
        self.cap - 1
    }

    fn next_index(&self, idx: usize) -> (next: usize)
        requires
            self.wf(),
            idx < self.cap,
        ensures
            next == (if idx + 1 == self.cap {
                0
            } else {
                idx + 1
            }),
    {
        let next: usize = idx + 1;
        if next == self.cap {
            0
        } else {
            next
        }
    }

    /// Add a frame at the end, or drop it if the queue is full.
    pub fn push_stereo(&mut self, left: i16, right: i16) -> (pushed: bool)
        requires
            old(self).wf(),
        ensures
            final(self).wf(),
            final(self).capacity() == old(self).capacity(),
            occurs(
                old(self)@,
                old(self).capacity(),
                (QueueEvent::Push { frame: (left, right), pushed }),
                final(self)@,
            ),
    {
        let head: usize = self.head;
        let next: usize = self.next_index(head);
        if next == self.tail {
            // Full: drop newest.
            return false;
        }
        self.buf.set(head, (left, right));
        self.head = next;
        proof {
            assert(self@ == old(self)@.push((left, right)));
        }
        true
    }

    /// Take the first frame.
    pub fn pop_stereo(&mut self) -> (frame: Option<(i16, i16)>)
        requires
            old(self).wf(),
        ensures
            final(self).wf(),
            final(self).capacity() == old(self).capacity(),
            occurs(
                old(self)@,
                old(self).capacity(),
                (QueueEvent::Pop { popped: frame }),
                final(self)@,
            ),
    {
        let tail: usize = self.tail;
        if tail == self.head {
            return None;
        }
        let sample = self.buf[tail];
        let next: usize = self.next_index(tail);
        self.tail = next;
        proof {
            assert(self@ == old(self)@.skip(1));
        }
        Some(sample)
    }
}

/// What the producer and the consumer agree on: the ring is in order, has the
/// capacity that it was made with, and holds one of the queues that it may hold.
pub struct SharedRing {
    pub capacity: Ghost<nat>,
    pub contents: Ghost<Set<Seq<(i16, i16)>>>,
}

impl RwLockPredicate<Ring> for SharedRing {
    open spec fn inv(self, ring: Ring) -> bool {
        &&& ring.wf()
        &&& ring.capacity() == self.capacity@
        &&& self.contents@.contains(ring@)
    }
}

/// A push of `frame` leads from a queue of `contents` to one of `contents`.
pub open spec fn kept_by_push(
    contents: Set<Seq<(i16, i16)>>,
    capacity: nat,
    frame: (i16, i16),
) -> bool {
    forall|queue: Seq<(i16, i16)>| #[trigger]
        contents.contains(queue) && queue.len() < capacity ==> contents.contains(queue.push(frame))
}

/// A pop leads from a queue of `contents` to one of `contents`.
pub open spec fn kept_by_pop(contents: Set<Seq<(i16, i16)>>) -> bool {
    forall|queue: Seq<(i16, i16)>| #[trigger]
        contents.contains(queue) && queue.len() > 0 ==> contents.contains(queue.skip(1))
}

/// The step `event` leads from a ring that the ends may find to one that they
/// may put back.
pub open spec fn shared_step(shared: SharedRing, event: QueueEvent) -> bool {
    exists|found: Ring, put: Ring|
        {
            &&& #[trigger] shared.inv(found)
            &&& #[trigger] shared.inv(put)
            &&& occurs(found@, shared.capacity@, event, put@)
        }
}

/// The end of the queue that the audio callback takes frames from.
#[derive(Clone)]
pub struct AudioConsumer {
    inner: Arc<RwLock<Ring, SharedRing>>,
}

/// The end of the queue that the emulator puts frames into.
#[derive(Clone)]
pub struct AudioProducer {
    inner: Arc<RwLock<Ring, SharedRing>>,
}

/// A queue for `capacity_frames` frames, at least for one, with its two ends.
///
/// The ends may be used from two threads, and the queue may hold anything: see
/// [`audio_queue_of`].
pub fn audio_queue(capacity_frames: usize) -> (ends: (AudioProducer, AudioConsumer))
    requires
        4 * slots(capacity_frames as int) <= isize::MAX,
    ensures
        ends.0.capacity() == slots(capacity_frames as int) - 1,
        ends.1.capacity() == slots(capacity_frames as int) - 1,
        ends.0.queue() == ends.1.queue(),
        forall|queue: Seq<(i16, i16)>| #[trigger] ends.0.contents().contains(queue),
{
    audio_queue_of(capacity_frames, Ghost(Set::full()))
}

/// A queue as [`audio_queue`] makes it, which only ever holds one of `contents`.
///
/// The ends may be used from two threads. An operation of an end takes the
/// [`Ring`] that they share, does its step on it and puts it back, whatever the
/// other end does in between. What the ring holds at that moment is up to both
/// ends. Each operation keeps to `contents`, given that its step does; it says
/// what it gives for some ring that the ends may find. That the step is done
/// exactly once is not part of what the ends say.
pub fn audio_queue_of(
    capacity_frames: usize,
    Ghost(contents): Ghost<Set<Seq<(i16, i16)>>>,
) -> (ends: (AudioProducer, AudioConsumer))
    requires
        4 * slots(capacity_frames as int) <= isize::MAX,
        contents.contains(Seq::empty()),
    ensures
        ends.0.capacity() == slots(capacity_frames as int) - 1,
        ends.1.capacity() == slots(capacity_frames as int) - 1,
        ends.0.queue() == ends.1.queue(),
        ends.0.contents() == contents,
        ends.1.contents() == contents,
{
    let ring = Ring::new(capacity_frames);
    let ghost shared = SharedRing {
        capacity: Ghost(ring.capacity()),
        contents: Ghost(contents),
    };
    let inner = Arc::new(RwLock::new(ring, Ghost(shared)));
    (AudioProducer { inner: inner.clone() }, AudioConsumer { inner })
}

impl AudioProducer {
    /// The shared queue.
    pub closed spec fn queue(self) -> RwLock<Ring, SharedRing> {
        *self.inner
    }

    /// Number of frames that the queue can hold.
    pub open spec fn capacity(self) -> nat {
        self.queue().pred().capacity@
    }

    /// What the queue may hold.
    pub open spec fn contents(self) -> Set<Seq<(i16, i16)>> {
        self.queue().pred().contents@
    }

    /// Add a frame at the end, or drop it if the queue is full
    /// ([`Ring::push_stereo`]).
    pub fn push_stereo(&self, left: i16, right: i16) -> (pushed: bool)
        requires
            kept_by_push(self.contents(), self.capacity(), (left, right)),
        ensures
            shared_step(
                self.queue().pred(),
                (QueueEvent::Push { frame: (left, right), pushed }),
            ),
    {
        let (mut ring, lock) = self.inner.acquire_write();
        let ghost found = ring;
        let pushed = ring.push_stereo(left, right);
        proof {
            assert(self.queue().pred().inv(found));
            assert(self.queue().pred().inv(ring));
        }
        lock.release_write(ring);
        pushed
    }

    /// Number of frames in the queue.
    pub fn len(&self) -> (n: usize)
        ensures
            n <= self.capacity(),
            exists|ring: Ring| #[trigger] self.queue().inv(ring) && n == ring@.len(),
    {
        let lock = self.inner.acquire_read();
        let ring = lock.borrow();
        proof {
            ring.law_never_over_capacity();
            assert(self.queue().inv(*ring));
        }
        let n: usize = ring.len();
        lock.release_read();
        n
    }

    pub fn is_empty(&self) -> (empty: bool)
        ensures
            exists|ring: Ring| #[trigger]
                self.queue().inv(ring) && empty == (ring@.len() == 0),
    {
        self.len() == 0
    }

    /// Number of frames that the queue can hold.
    pub fn capacity_frames(&self) -> (n: usize)
        ensures
            n == self.capacity(),
    {
        let lock = self.inner.acquire_read();
        let n: usize = lock.borrow().capacity_frames();
        lock.release_read();
        n
    }
}

impl AudioConsumer {
    /// The shared queue.
    pub closed spec fn queue(self) -> RwLock<Ring, SharedRing> {
        *self.inner
    }

    /// Number of frames that the queue can hold.
    pub open spec fn capacity(self) -> nat {
        self.queue().pred().capacity@
    }

    /// What the queue may hold.
    pub open spec fn contents(self) -> Set<Seq<(i16, i16)>> {
        self.queue().pred().contents@
    }

    /// Take the first frame ([`Ring::pop_stereo`]).
    pub fn pop_stereo(&self) -> (frame: Option<(i16, i16)>)
        requires
            kept_by_pop(self.contents()),
        ensures
            shared_step(self.queue().pred(), (QueueEvent::Pop { popped: frame })),
    {
        let (mut ring, lock) = self.inner.acquire_write();
        let ghost found = ring;
        let frame = ring.pop_stereo();
        proof {
            assert(self.queue().pred().inv(found));
            assert(self.queue().pred().inv(ring));
        }
        lock.release_write(ring);
        frame
    }

    /// Number of frames in the queue.
    pub fn len(&self) -> (n: usize)
        ensures
            n <= self.capacity(),
            exists|ring: Ring| #[trigger] self.queue().inv(ring) && n == ring@.len(),
    {
        let lock = self.inner.acquire_read();
        let ring = lock.borrow();
        proof {
            ring.law_never_over_capacity();
            assert(self.queue().inv(*ring));
        }
        let n: usize = ring.len();
        lock.release_read();
        n
    }

    pub fn is_empty(&self) -> (empty: bool)
        ensures
            exists|ring: Ring| #[trigger]
                self.queue().inv(ring) && empty == (ring@.len() == 0),
    {
        self.len() == 0
    }

    /// Number of frames that the queue can hold.
    pub fn capacity_frames(&self) -> (n: usize)
        ensures
            n == self.capacity(),
    {
        let lock = self.inner.acquire_read();
        let n: usize = lock.borrow().capacity_frames();
        lock.release_read();
        n
    }
}

/// The queues of which every frame is one of `frames`.
pub open spec fn queues_of(frames: Set<(i16, i16)>) -> Set<Seq<(i16, i16)>> {
    Set::new(
        |queue: Seq<(i16, i16)>|
            forall|i: int| 0 <= i < queue.len() ==> frames.contains(#[trigger] queue[i]),
    )
}

/// Between threads, no frame comes out of the queue that did not go in. Where
/// every push is of one of `frames`, the ends may agree that the queue holds
/// nothing else; then every frame that is popped is one of `frames`.
pub proof fn law_only_pushed_frames_come_out(shared: SharedRing, frames: Set<(i16, i16)>)
    requires
        shared.contents@ == queues_of(frames),
    ensures
        shared.contents@.contains(Seq::empty()),
        forall|frame: (i16, i16)| #[trigger]
            frames.contains(frame) ==> kept_by_push(shared.contents@, shared.capacity@, frame),
        kept_by_pop(shared.contents@),
        forall|frame: (i16, i16)|
            #[trigger] shared_step(shared, (QueueEvent::Pop { popped: Some(frame) }))
                ==> frames.contains(frame),
{
    assert forall|frame: (i16, i16)| #[trigger] frames.contains(frame) implies kept_by_push(
        shared.contents@,
        shared.capacity@,
        frame,
    ) by {
        assert forall|queue: Seq<(i16, i16)>| #[trigger]
            shared.contents@.contains(queue) && queue.len()
                < shared.capacity@ implies shared.contents@.contains(queue.push(frame)) by {
            assert forall|i: int| 0 <= i < queue.len() + 1 implies frames.contains(
                #[trigger] queue.push(frame)[i],
            ) by {
                if i < queue.len() {
                    assert(frames.contains(queue[i]));
                }
            }
        }
    }
    assert forall|queue: Seq<(i16, i16)>| #[trigger]
        shared.contents@.contains(queue) && queue.len() > 0 implies shared.contents@.contains(
        queue.skip(1),
    ) by {
        assert forall|i: int| 0 <= i < queue.len() - 1 implies frames.contains(
            #[trigger] queue.skip(1)[i],
        ) by {
            assert(frames.contains(queue[i + 1]));
        }
    }
    assert forall|frame: (i16, i16)|
        #[trigger] shared_step(
            shared,
            (QueueEvent::Pop { popped: Some(frame) }),
        ) implies frames.contains(frame) by {
        let event = QueueEvent::Pop { popped: Some(frame) };
        let (found, put) = choose|found: Ring, put: Ring|
            {
                &&& #[trigger] shared.inv(found)
                &&& #[trigger] shared.inv(put)
                &&& occurs(found@, shared.capacity@, event, put@)
            };
        assert(frames.contains(found@[0]));
    }
}

/// A queue of `capacity` frames that held `queue`, after pushes of `frames`, as
/// [`Ring::push_stereo`] does them.
pub open spec fn after_pushes(
    queue: Seq<(i16, i16)>,
    capacity: nat,
    frames: Seq<(i16, i16)>,
) -> Seq<(i16, i16)>
    decreases frames.len(),
{
    if frames.len() == 0 {
        queue
    } else {
        let before = after_pushes(queue, capacity, frames.drop_last());
        if before.len() < capacity {
            before.push(frames.last())
        } else {
            before
        }
    }
}

/// What `n` pops of a queue give, as [`Ring::pop_stereo`] does them.
pub open spec fn popped(queue: Seq<(i16, i16)>, n: nat) -> Seq<Option<(i16, i16)>>
    decreases n,
{
    if n == 0 {
        Seq::empty()
    } else if queue.len() == 0 {
        seq![None] + popped(queue, (n - 1) as nat)
    } else {
        seq![Some(queue[0])] + popped(queue.skip(1), (n - 1) as nat)
    }
}

/// Pushes are dropped once the queue is full, and only then: what is kept is
/// what was there, followed by as many of the new frames as fit.
pub proof fn law_pushes_drop_newest(
    queue: Seq<(i16, i16)>,
    capacity: nat,
    frames: Seq<(i16, i16)>,
)
    requires
        queue.len() <= capacity,
    ensures
        after_pushes(queue, capacity, frames) == if queue.len() + frames.len() <= capacity {
            queue + frames
        } else {
            (queue + frames).take(capacity as int)
        },
    decreases frames.len(),
{
    if frames.len() == 0 {
        assert(queue + frames == queue);
    } else {
        law_pushes_drop_newest(queue, capacity, frames.drop_last());
        if queue.len() + frames.len() <= capacity {
            assert((queue + frames.drop_last()).push(frames.last()) == queue + frames);
        } else {
            assert((queue + frames.drop_last()).take(capacity as int) == (queue + frames).take(
                capacity as int,
            ));
            assert(queue.len() + frames.len() - 1 == capacity ==> queue + frames.drop_last() == (
            queue + frames).take(capacity as int));
        }
    }
}

/// Frames leave in the order in which they are queued, each of them once.
pub proof fn law_pops_keep_order(queue: Seq<(i16, i16)>, n: nat)
    ensures
        popped(queue, n) == Seq::new(
            n,
            |i: int|
                if i < queue.len() {
                    Some(queue[i])
                } else {
                    None
                },
        ),
    decreases n,
{
    if n > 0 {
        if queue.len() == 0 {
            law_pops_keep_order(queue, (n - 1) as nat);
        } else {
            law_pops_keep_order(queue.skip(1), (n - 1) as nat);
        }
    }
}

/// What goes into an empty queue that can hold it comes out, first in first
/// out.
pub proof fn law_first_in_first_out(capacity: nat, frames: Seq<(i16, i16)>)
    requires
        frames.len() <= capacity,
    ensures
        popped(after_pushes(Seq::empty(), capacity, frames), frames.len()) == Seq::new(
            frames.len(),
            |i: int| Some(frames[i]),
        ),
{
    law_pushes_drop_newest(Seq::empty(), capacity, frames);
    assert(Seq::<(i16, i16)>::empty() + frames == frames);
    law_pops_keep_order(frames, frames.len());
}

/// `queues` are what the queue holds before, between and after `events`.
pub open spec fn is_history(
    queues: Seq<Seq<(i16, i16)>>,
    capacity: nat,
    events: Seq<QueueEvent>,
) -> bool {
    &&& queues.len() == events.len() + 1
    &&& forall|i: int|
        0 <= i < events.len() ==> #[trigger] occurs(queues[i], capacity, events[i], queues[i + 1])
}

/// The frames that were taken in, in order.
pub open spec fn frames_in(events: Seq<QueueEvent>) -> Seq<(i16, i16)>
    decreases events.len(),
{
    if events.len() == 0 {
        Seq::empty()
    } else {
        match events.last() {
            QueueEvent::Push { frame, pushed: true } => frames_in(events.drop_last()).push(frame),
            _ => frames_in(events.drop_last()),
        }
    }
}

/// The frames that were given out, in order.
pub open spec fn frames_out(events: Seq<QueueEvent>) -> Seq<(i16, i16)>
    decreases events.len(),
{
    if events.len() == 0 {
        Seq::empty()
    } else {
        match events.last() {
            QueueEvent::Pop { popped: Some(frame) } => frames_out(events.drop_last()).push(frame),
            _ => frames_out(events.drop_last()),
        }
    }
}

/// After any mixture of pushes and pops on an empty queue, what went in is what
/// came out followed by what is there, in this order. The length is the number
/// of pushes taken minus that of frames popped, and never over the capacity.
pub proof fn law_nothing_is_lost(
    queues: Seq<Seq<(i16, i16)>>,
    capacity: nat,
    events: Seq<QueueEvent>,
)
    requires
        is_history(queues, capacity, events),
        queues[0] == Seq::<(i16, i16)>::empty(),
    ensures
        frames_in(events) == frames_out(events) + queues.last(),
        queues.last().len() == frames_in(events).len() - frames_out(events).len(),
        queues.last().len() <= capacity,
    decreases events.len(),
{
    if events.len() == 0 {
        assert(frames_in(events) == frames_out(events) + queues.last());
    } else {
        let n = events.len() - 1;
        let earlier = queues.drop_last();
        assert forall|i: int| 0 <= i < n implies #[trigger] occurs(
            earlier[i],
            capacity,
            events.drop_last()[i],
            earlier[i + 1],
        ) by {
            assert(occurs(queues[i], capacity, events[i], queues[i + 1]));
        }
        law_nothing_is_lost(earlier, capacity, events.drop_last());
        assert(occurs(queues[n], capacity, events[n], queues[n + 1]));
        assert(frames_in(events) == frames_out(events) + queues.last());
    }
}

} // verus!
