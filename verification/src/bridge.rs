//! The event bridge: a single ordered, consumer-pollable event source that
//! decouples the platform's concurrent notification callbacks from the one
//! consumer. Callbacks hand the bridge plain, already-fetched values; the
//! bridge turns each into at most one `MediaEvent` and queues it in a bounded
//! queue whose overflow policy is to drop the oldest entry, never to fail.

use vstd::prelude::*;

use crate::media_status::{
    MediaDuration, MediaEvent, PlayStatus, TrackInfo, nanos_from_ticks, status_from_code,
};

verus! {

/// Capacity of the bridge's event queue.
pub const QUEUE_CAPACITY: usize = 20;

/// Bounded FIFO of pending events. When full, an enqueue discards the oldest
/// entry to make room for the newest, so a burst of notifications can slow
/// the consumer down but can never halt the stream.
pub struct EventQueue {
    items: Vec<MediaEvent>,
}

/// One enqueue under the drop-oldest overflow policy.
pub open spec fn push_policy(q: Seq<MediaEvent>, e: MediaEvent) -> Seq<MediaEvent> {
    if q.len() < QUEUE_CAPACITY {
        q.push(e)
    } else {
        q.drop_first().push(e)
    }
}

/// The queue contents after enqueueing a burst of events one by one, in order,
/// under the drop-oldest policy.
pub open spec fn push_all(q: Seq<MediaEvent>, evs: Seq<MediaEvent>) -> Seq<MediaEvent>
    decreases evs.len(),
{
    if evs.len() == 0 {
        q
    } else {
        push_all(push_policy(q, evs[0]), evs.drop_first())
    }
}

impl View for EventQueue {
    type V = Seq<MediaEvent>;

    closed spec fn view(&self) -> Seq<MediaEvent> {
        self.items@
    }
}

impl EventQueue {
    pub open spec fn wf(&self) -> bool {
        self@.len() <= QUEUE_CAPACITY
    }

    pub fn new() -> (q: EventQueue)
        ensures
            q.wf(),
            q@ == Seq::<MediaEvent>::empty(),
    {
        EventQueue { items: Vec::new() }
    }

    pub fn len(&self) -> (n: usize)
        ensures
            n == self@.len(),
    {
        self.items.len()
    }

    /// Enqueues one event; when the queue is full, the oldest queued event is
    /// dropped to make room rather than failing the producer.
    pub fn push(&mut self, e: MediaEvent)
        requires
            old(self).wf(),
        ensures
            final(self).wf(),
            final(self)@ == push_policy(old(self)@, e),
    {
        if self.items.len() == QUEUE_CAPACITY {
            self.items.remove(0);
            proof {
                assert(self.items@ =~= old(self)@.drop_first());
            }
        }
        self.items.push(e);
    }

    /// Dequeues the oldest pending event, if any.
    pub fn pop(&mut self) -> (r: Option<MediaEvent>)
        requires
            old(self).wf(),
        ensures
            final(self).wf(),
            old(self)@.len() == 0 ==> r is None && final(self)@ == old(self)@,
            old(self)@.len() > 0 ==> r == Some(old(self)@[0]) && final(self)@ == old(
                self,
            )@.drop_first(),
    {
        if self.items.len() == 0 {
            None
        } else {
            let e = self.items.remove(0);
            proof {
                assert(self.items@ =~= old(self)@.drop_first());
            }
            Some(e)
        }
    }
}

/// Pushing a burst into a queue with room left, one by one, appends the burst;
/// once the total exceeds the capacity, exactly the oldest entries are gone.
proof fn lemma_push_all_from(q: Seq<MediaEvent>, evs: Seq<MediaEvent>)
    requires
        q.len() <= QUEUE_CAPACITY,
    ensures
        push_all(q, evs) == (q + evs).skip(
            if q.len() + evs.len() <= QUEUE_CAPACITY {
                0int
            } else {
                q.len() + evs.len() - QUEUE_CAPACITY
            },
        ),
    decreases evs.len(),
{
    if evs.len() == 0 {
        assert(q + evs =~= q);
        assert(q.skip(0) =~= q);
    } else {
        let e = evs[0];
        let rest = evs.drop_first();
        let q2 = push_policy(q, e);
        lemma_push_all_from(q2, rest);
        if q.len() < QUEUE_CAPACITY {
            assert(q2 + rest =~= q + evs);
        } else {
            let k = q.len() + evs.len() - QUEUE_CAPACITY;
            assert(q2 + rest =~= (q + evs).skip(1));
            if q2.len() + rest.len() <= QUEUE_CAPACITY {
                assert((q + evs).skip(1).skip(0) =~= (q + evs).skip(k));
            } else {
                assert((q + evs).skip(1).skip(q2.len() + rest.len() - QUEUE_CAPACITY) =~= (q
                    + evs).skip(k));
            }
        }
    }
}

/// Per-producer order is preserved: enqueueing a burst of events into an empty
/// queue leaves exactly the most recent `QUEUE_CAPACITY` of them, still in
/// their original order. Overflow only ever discards the oldest entries; it
/// never reorders, so the emitted stream preserves each producer's own
/// relative order.
pub proof fn lemma_queue_preserves_order(evs: Seq<MediaEvent>)
    ensures
        push_all(Seq::<MediaEvent>::empty(), evs) == evs.skip(
            if evs.len() <= QUEUE_CAPACITY {
                0int
            } else {
                evs.len() - QUEUE_CAPACITY
            },
        ),
{
    let q = Seq::<MediaEvent>::empty();
    lemma_push_all_from(q, evs);
    assert(q + evs =~= evs);
}

/// State of the active session at subscription or switch time, already fetched
/// from the platform as plain values. In monitor mode a failed field fetch
/// degrades to a placeholder value here rather than aborting the dashboard.
#[derive(Clone, Debug)]
pub struct SessionSnapshot {
    pub source_id: String,
    pub status_code: i32,
    pub track: TrackInfo,
    pub position_ticks: i64,
    pub length_ticks: i64,
}

/// The `PositionChanged` event built from a timeline snapshot, with both tick
/// counts converted to durations.
pub open spec fn position_event(position_ticks: int, length_ticks: int) -> MediaEvent {
    MediaEvent::PositionChanged {
        current: MediaDuration { nanos: nanos_from_ticks(position_ticks) },
        length: MediaDuration { nanos: nanos_from_ticks(length_ticks) },
    }
}

/// The bootstrap burst for a newly observed session: its application identity
/// first, then one snapshot event of each kind in a fixed order, so the
/// consumer's state is never stale after an open or a session switch.
pub open spec fn bootstrap_seq(s: SessionSnapshot) -> Seq<MediaEvent> {
    seq![
        MediaEvent::SourceAppChanged(Some(s.source_id)),
        MediaEvent::PlayStatusChanged(status_from_code(s.status_code as int)),
        MediaEvent::InfoChanged(s.track),
        position_event(s.position_ticks as int, s.length_ticks as int),
    ]
}

/// A bootstrap burst holds exactly one `SourceAppChanged(Some(_))` followed by
/// one `PlayStatusChanged`, one `InfoChanged`, and one `PositionChanged`, in
/// that order.
pub proof fn lemma_bootstrap_shape(s: SessionSnapshot)
    ensures
        bootstrap_seq(s).len() == 4,
        bootstrap_seq(s)[0] == MediaEvent::SourceAppChanged(Some(s.source_id)),
        bootstrap_seq(s)[1] is PlayStatusChanged,
        bootstrap_seq(s)[2] is InfoChanged,
        bootstrap_seq(s)[3] is PositionChanged,
{
}

proof fn lemma_push_all_four(
    q: Seq<MediaEvent>,
    a: MediaEvent,
    b: MediaEvent,
    c: MediaEvent,
    d: MediaEvent,
)
    ensures
        push_all(q, seq![a, b, c, d]) == push_policy(
            push_policy(push_policy(push_policy(q, a), b), c),
            d,
        ),
{
    reveal_with_fuel(push_all, 5);
    let s = seq![a, b, c, d];
    assert(s.drop_first() =~= seq![b, c, d]);
    assert(seq![b, c, d].drop_first() =~= seq![c, d]);
    assert(seq![c, d].drop_first() =~= seq![d]);
    assert(seq![d].drop_first() =~= Seq::<MediaEvent>::empty());
}

/// Owns the queue and decides, for every notification, what is emitted. The
/// platform glue around it performs the fetches and the callback registration
/// and hands the results in as plain values; a closed bridge stops forwarding
/// even if a stray callback still fires.
pub struct EventBridge {
    queue: EventQueue,
    live: bool,
}

impl View for EventBridge {
    type V = Seq<MediaEvent>;

    closed spec fn view(&self) -> Seq<MediaEvent> {
        self.queue@
    }
}

impl EventBridge {
    pub open spec fn wf(&self) -> bool {
        self@.len() <= QUEUE_CAPACITY
    }

    /// Whether the bridge still forwards events.
    pub closed spec fn is_live(&self) -> bool {
        self.live
    }

    /// Opens the bridge. Against an active session (a snapshot was fetched)
    /// the queue starts with exactly the bootstrap burst; against no active
    /// session it starts empty and nothing is emitted.
    pub fn new(snapshot: Option<SessionSnapshot>) -> (b: EventBridge)
        ensures
            b.wf(),
            b.is_live(),
            match snapshot {
                Some(s) => b@ == bootstrap_seq(s),
                None => b@ == Seq::<MediaEvent>::empty(),
            },
    {
        let mut bridge = EventBridge { queue: EventQueue::new(), live: true };
        match snapshot {
            Some(s) => {
                bridge.enqueue_bootstrap(s);
                proof {
                    lemma_queue_preserves_order(bootstrap_seq(s));
                    assert(bootstrap_seq(s).skip(0) =~= bootstrap_seq(s));
                }
            },
            None => {},
        }
        bridge
    }

    /// Queues the four bootstrap events for a fresh session snapshot.
    fn enqueue_bootstrap(&mut self, s: SessionSnapshot)
        requires
            old(self).wf(),
        ensures
            final(self).wf(),
            final(self).is_live() == old(self).is_live(),
            final(self)@ == push_all(old(self)@, bootstrap_seq(s)),
    {
        let ghost q0 = self.queue@;
        let ghost burst = bootstrap_seq(s);
        let current = MediaDuration::from_ticks(s.position_ticks);
        let length = MediaDuration::from_ticks(s.length_ticks);
        let status = PlayStatus::from_code(s.status_code);
        self.queue.push(MediaEvent::SourceAppChanged(Some(s.source_id)));
        self.queue.push(MediaEvent::PlayStatusChanged(status));
        self.queue.push(MediaEvent::InfoChanged(s.track));
        self.queue.push(MediaEvent::PositionChanged { current, length });
        proof {
            lemma_push_all_four(q0, burst[0], burst[1], burst[2], burst[3]);
        }
    }

    /// Handles a session-changed notification, given the freshly fetched
    /// snapshot of the new current session, or `None` when none exists. With
    /// no new session a single `SourceAppChanged(None)` marker is queued; with
    /// a new session the full bootstrap burst is queued, mirroring `new`, so
    /// the consumer's state is never stale after a switch.
    pub fn on_session_changed(&mut self, snapshot: Option<SessionSnapshot>)
        requires
            old(self).wf(),
        ensures
            final(self).wf(),
            final(self).is_live() == old(self).is_live(),
            !old(self).is_live() ==> final(self)@ == old(self)@,
            old(self).is_live() ==> match snapshot {
                Some(s) => final(self)@ == push_all(old(self)@, bootstrap_seq(s)),
                None => final(self)@ == push_policy(
                    old(self)@,
                    MediaEvent::SourceAppChanged(None),
                ),
            },
    {
        if !self.live {
            return ;
        }
        match snapshot {
            None => {
                self.queue.push(MediaEvent::SourceAppChanged(None));
            },
            Some(s) => {
                self.enqueue_bootstrap(s);
            },
        }
    }

    /// Handles a media-properties notification: a successful re-fetch queues
    /// `InfoChanged`; a failed fetch is skipped silently, never surfaced back
    /// to the notification thread.
    pub fn on_media_properties(&mut self, fetched: Option<TrackInfo>)
        requires
            old(self).wf(),
        ensures
            final(self).wf(),
            final(self).is_live() == old(self).is_live(),
            !old(self).is_live() ==> final(self)@ == old(self)@,
            old(self).is_live() ==> match fetched {
                Some(t) => final(self)@ == push_policy(old(self)@, MediaEvent::InfoChanged(t)),
                None => final(self)@ == old(self)@,
            },
    {
        if !self.live {
            return ;
        }
        match fetched {
            Some(t) => {
                self.queue.push(MediaEvent::InfoChanged(t));
            },
            None => {},
        }
    }

    /// Handles a timeline-properties notification, given the re-fetched
    /// position and maximum seek time in platform ticks; a failed fetch is
    /// skipped silently.
    pub fn on_timeline_properties(&mut self, fetched: Option<(i64, i64)>)
        requires
            old(self).wf(),
        ensures
            final(self).wf(),
            final(self).is_live() == old(self).is_live(),
            !old(self).is_live() ==> final(self)@ == old(self)@,
            old(self).is_live() ==> match fetched {
                Some(ticks) => final(self)@ == push_policy(
                    old(self)@,
                    position_event(ticks.0 as int, ticks.1 as int),
                ),
                None => final(self)@ == old(self)@,
            },
    {
        if !self.live {
            return ;
        }
        match fetched {
            Some((position_ticks, length_ticks)) => {
                let current = MediaDuration::from_ticks(position_ticks);
                let length = MediaDuration::from_ticks(length_ticks);
                self.queue.push(MediaEvent::PositionChanged { current, length });
            },
            None => {},
        }
    }

    /// Handles a playback-info notification, given the re-fetched raw status
    /// code; a failed fetch is skipped silently.
    pub fn on_playback_info(&mut self, fetched: Option<i32>)
        requires
            old(self).wf(),
        ensures
            final(self).wf(),
            final(self).is_live() == old(self).is_live(),
            !old(self).is_live() ==> final(self)@ == old(self)@,
            old(self).is_live() ==> match fetched {
                Some(code) => final(self)@ == push_policy(
                    old(self)@,
                    MediaEvent::PlayStatusChanged(status_from_code(code as int)),
                ),
                None => final(self)@ == old(self)@,
            },
    {
        if !self.live {
            return ;
        }
        match fetched {
            Some(code) => {
                self.queue.push(MediaEvent::PlayStatusChanged(PlayStatus::from_code(code)));
            },
            None => {},
        }
    }

    /// Hands the consumer the next queued event, in emission order.
    pub fn next_event(&mut self) -> (r: Option<MediaEvent>)
        requires
            old(self).wf(),
        ensures
            final(self).wf(),
            final(self).is_live() == old(self).is_live(),
            old(self)@.len() == 0 ==> r is None && final(self)@ == old(self)@,
            old(self)@.len() > 0 ==> r == Some(old(self)@[0]) && final(self)@ == old(
                self,
            )@.drop_first(),
    {
        self.queue.pop()
    }

    /// Closes the bridge: events already queued stay readable, but nothing
    /// further is forwarded, even if a stray callback still fires.
    pub fn close(&mut self)
        requires
            old(self).wf(),
        ensures
            final(self).wf(),
            !final(self).is_live(),
            final(self)@ == old(self)@,
    {
        self.live = false;
    }

    pub fn live(&self) -> (b: bool)
        ensures
            b == self.is_live(),
    {
        self.live
    }

    pub fn pending(&self) -> (n: usize)
        requires
            self.wf(),
        ensures
            n == self@.len(),
    {
        self.queue.len()
    }
}

} // verus!
