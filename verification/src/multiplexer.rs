use vstd::prelude::*;

verus! {

/// The closed set of event-source categories the reactor owns. Each is
/// registered at most once and is owned exclusively by the multiplexer for
/// the life of the process.
#[derive(Clone, Copy, PartialEq, Eq, Structural, Debug)]
pub enum SourceKind {
    /// Session and seat lifecycle notifications.
    SessionNotifier,
    /// Device hot-plug notifications.
    HotPlugNotifier,
    /// The raw input-device backend.
    InputBackend,
    /// The listening socket accepting new protocol clients.
    ClientListener,
    /// The protocol dispatch socket (client requests ready to read).
    ProtocolDispatch,
    /// The display subsystem's notifier (presentation completions, faults).
    DisplayNotifier,
}

/// A raw event as one of a small closed set of variants, already lifted to
/// plain values by the embedding process at the source boundary.
#[derive(Clone, Copy, PartialEq, Eq, Structural, Debug)]
pub enum EventPayload {
    /// The session was paused, resumed or otherwise changed.
    SessionChanged,
    /// A device appeared.
    DeviceAdded { device_id: u64 },
    /// A device changed.
    DeviceChanged { device_id: u64 },
    /// A device disappeared.
    DeviceRemoved { device_id: u64 },
    /// A keyboard key event. `keycode` is the portable code produced by
    /// the delegated keymap, `modifiers` the keymap's modifier mask at the
    /// event, and `consumed_by_protocol` the verdict of the protocol
    /// library's focus filtering (a protocol-level shortcut claims the key).
    Keyboard { keycode: u32, pressed: bool, modifiers: u32, consumed_by_protocol: bool },
    /// A pointer event; acknowledged as a category, not translated here.
    Pointer,
    /// A new protocol client connected on the listening socket.
    ClientConnected { connection_id: u64 },
    /// The protocol dispatch socket has client data ready.
    ProtocolDataReady,
    /// The display subsystem reports the commit of `slot` completed.
    PresentationCompleted { slot: usize },
    /// The display subsystem reports an error; the loop continues.
    DisplayFault,
}

/// One delivered event: which source fired, and what it carried.
#[derive(Clone, Copy, PartialEq, Eq, Structural, Debug)]
pub struct DispatchedEvent {
    pub source: SourceKind,
    pub payload: EventPayload,
}

/// Registering an event source failed.
#[derive(Clone, Copy, PartialEq, Eq, Structural, Debug)]
pub enum RegistrationError {
    /// The source's descriptor cannot be polled.
    UnpollableSource,
}

/// The single-threaded reactor: owns every event source, holds what each
/// has delivered since the last wakeup, and hands the events out in a
/// fixed, fair order — sources in registration order, and within one
/// source in arrival order. The kernel-level readiness wait is outside
/// work; the embedding process feeds arrivals in with `push_event` and
/// then drains one wakeup's worth with `run_once`.
pub struct EventMultiplexer {
    /// Registered source kinds, in registration order, each at most once.
    pub order: Vec<SourceKind>,
    /// Pending events per source kind, each in arrival order.
    pub session_queue: Vec<EventPayload>,
    pub hotplug_queue: Vec<EventPayload>,
    pub input_queue: Vec<EventPayload>,
    pub client_queue: Vec<EventPayload>,
    pub protocol_queue: Vec<EventPayload>,
    pub display_queue: Vec<EventPayload>,
}

impl EventMultiplexer {
    /// The arrival queue of one source kind.
    pub open spec fn queue_of(self, kind: SourceKind) -> Seq<EventPayload> {
        match kind {
            SourceKind::SessionNotifier => self.session_queue@,
            SourceKind::HotPlugNotifier => self.hotplug_queue@,
            SourceKind::InputBackend => self.input_queue@,
            SourceKind::ClientListener => self.client_queue@,
            SourceKind::ProtocolDispatch => self.protocol_queue@,
            SourceKind::DisplayNotifier => self.display_queue@,
        }
    }

    pub open spec fn is_registered(self, kind: SourceKind) -> bool {
        exists|i: int| 0 <= i < self.order@.len() && self.order@[i] == kind
    }

    /// Each source registered at most once.
    pub open spec fn wf(self) -> bool {
        forall|i: int, j: int|
            0 <= i < self.order@.len() && 0 <= j < self.order@.len() && self.order@[i]
                == self.order@[j] ==> i == j
    }

    /// The events of one source, in arrival order, tagged with the source.
    pub open spec fn events_of(self, kind: SourceKind) -> Seq<DispatchedEvent> {
        self.queue_of(kind).map_values(|p: EventPayload| DispatchedEvent { source: kind, payload: p })
    }

    /// The delivery order of one wakeup, starting from the source
    /// registered at position `i`: all pending events of that source in
    /// arrival order, then those of the sources registered after it.
    pub open spec fn dispatch_from(self, i: int) -> Seq<DispatchedEvent>
        decreases self.order@.len() - i,
    {
        if 0 <= i < self.order@.len() {
            self.events_of(self.order@[i]) + self.dispatch_from(i + 1)
        } else {
            Seq::empty()
        }
    }

    /// Everything a wakeup delivers, in delivery order.
    pub open spec fn dispatch_order(self) -> Seq<DispatchedEvent> {
        self.dispatch_from(0)
    }

    /// A reactor with no sources registered and nothing pending.
    pub fn new() -> (m: EventMultiplexer)
        ensures
            m.order@ == Seq::<SourceKind>::empty(),
            m.wf(),
            forall|k: SourceKind| m.queue_of(k) == Seq::<EventPayload>::empty(),
    {
        EventMultiplexer {
            order: Vec::new(),
            session_queue: Vec::new(),
            hotplug_queue: Vec::new(),
            input_queue: Vec::new(),
            client_queue: Vec::new(),
            protocol_queue: Vec::new(),
            display_queue: Vec::new(),
        }
    }

    /// Install an event source. `pollable` is the embedding process's
    /// report on whether the source's descriptor can be polled; an
    /// unpollable source is refused and nothing changes. A registered
    /// source joins at the end of the delivery order with nothing pending.
    pub fn register(&mut self, kind: SourceKind, pollable: bool) -> (r: Result<
        (),
        RegistrationError,
    >)
        requires
            old(self).wf(),
            !old(self).is_registered(kind),
        ensures
            final(self).wf(),
            pollable ==> r is Ok && final(self).order@ == old(self).order@.push(kind),
            !pollable ==> (r matches Err(e) && e is UnpollableSource && final(self).order@ == old(
                self,
            ).order@),
            forall|k: SourceKind| final(self).queue_of(k) == old(self).queue_of(k),
    {
        if pollable {
            self.order.push(kind);
            Ok(())
        } else {
            Err(RegistrationError::UnpollableSource)
        }
    }

    /// Record one arrival from a source. Arrivals queue up in order until
    /// the next wakeup drains them.
    pub fn push_event(&mut self, kind: SourceKind, payload: EventPayload)
        ensures
            final(self).order@ == old(self).order@,
            final(self).queue_of(kind) == old(self).queue_of(kind).push(payload),
            forall|k: SourceKind| k != kind ==> final(self).queue_of(k) == old(self).queue_of(k),
    {
        match kind {
            SourceKind::SessionNotifier => self.session_queue.push(payload),
            SourceKind::HotPlugNotifier => self.hotplug_queue.push(payload),
            SourceKind::InputBackend => self.input_queue.push(payload),
            SourceKind::ClientListener => self.client_queue.push(payload),
            SourceKind::ProtocolDispatch => self.protocol_queue.push(payload),
            SourceKind::DisplayNotifier => self.display_queue.push(payload),
        }
    }

    /// One reactor wakeup: deliver everything pending, sources in
    /// registration order and each source's events in arrival order, and
    /// leave every queue empty. Delivering nothing (the timeout path) is a
    /// normal return with an empty delivery.
    pub fn run_once(&mut self) -> (delivered: Vec<DispatchedEvent>)
        requires
            old(self).wf(),
        ensures
            final(self).wf(),
            delivered@ == old(self).dispatch_order(),
            final(self).order@ == old(self).order@,
            forall|k: SourceKind|
                old(self).is_registered(k) ==> final(self).queue_of(k) == Seq::<
                    EventPayload,
                >::empty(),
            forall|k: SourceKind|
                !old(self).is_registered(k) ==> final(self).queue_of(k) == old(self).queue_of(k),
    {
        let ghost m0 = *self;
        let mut delivered: Vec<DispatchedEvent> = Vec::new();
        let n = self.order.len();
        let mut i: usize = 0;
        proof {
            assert(delivered@ + m0.dispatch_from(0) =~= m0.dispatch_from(0));
        }
        while i < n
            invariant
                m0.wf(),
                n == self.order@.len(),
                i <= n,
                self.order@ == m0.order@,
                delivered@ + self.dispatch_from(i as int) == m0.dispatch_order(),
                forall|j: int|
                    0 <= j < i ==> self.queue_of(m0.order@[j]) == Seq::<EventPayload>::empty(),
                forall|j: int|
                    i <= j < n ==> self.queue_of(m0.order@[j]) == m0.queue_of(m0.order@[j]),
                forall|k: SourceKind|
                    !m0.is_registered(k) ==> self.queue_of(k) == m0.queue_of(k),
            decreases n - i,
        {
            let ghost before = *self;
            let kind = self.order[i];
            proof {
                assert(before.dispatch_from(i as int) == before.events_of(kind)
                    + before.dispatch_from(i as int + 1));
            }
            let m = self.queue_len(kind);
            let mut k: usize = 0;
            proof {
                assert(before.events_of(kind).subrange(0, m as int) =~= before.events_of(kind));
                assert(delivered@ + (before.events_of(kind).subrange(0, m as int)
                    + before.dispatch_from(i as int + 1)) =~= (delivered@ + before.events_of(
                    kind,
                ).subrange(0, m as int)) + before.dispatch_from(i as int + 1));
            }
            while k < m
                invariant
                    k <= m,
                    *self == before,
                    m == before.queue_of(kind).len(),
                    0 <= i < before.order@.len(),
                    kind == before.order@[i as int],
                    (delivered@ + before.events_of(kind).subrange(k as int, m as int))
                        + before.dispatch_from(i as int + 1) == m0.dispatch_order(),
                decreases m - k,
            {
                let payload = self.queue_at(kind, k);
                let ghost d0 = delivered@;
                delivered.push(DispatchedEvent { source: kind, payload });
                proof {
                    assert(before.events_of(kind)[k as int] == DispatchedEvent {
                        source: kind,
                        payload,
                    });
                    assert(d0 + before.events_of(kind).subrange(k as int, m as int) =~= delivered@
                        + before.events_of(kind).subrange(k as int + 1, m as int));
                    assert((delivered@ + before.events_of(kind).subrange(k as int + 1, m as int))
                        + before.dispatch_from(i as int + 1) =~= (d0 + before.events_of(
                        kind,
                    ).subrange(k as int, m as int)) + before.dispatch_from(i as int + 1));
                }
                k = k + 1;
            }
            self.clear_queue(kind);
            proof {
                assert(before.events_of(kind).subrange(m as int, m as int) =~= Seq::<
                    DispatchedEvent,
                >::empty());
                assert(delivered@ + Seq::<DispatchedEvent>::empty() =~= delivered@);
                assert(delivered@ + before.dispatch_from(i as int + 1) == m0.dispatch_order());
                assert forall|j: int|
                    i as int + 1 <= j < before.order@.len() implies self.queue_of(before.order@[j])
                    == before.queue_of(before.order@[j]) by {
                    if before.order@[j] == kind {
                        assert(before.order@[j] == before.order@[i as int]);
                        assert(j == i as int);
                    }
                }
                lemma_dispatch_from_queues(before, *self, i as int + 1);
                assert forall|j: int|
                    0 <= j < i as int + 1 implies self.queue_of(m0.order@[j]) == Seq::<
                    EventPayload,
                >::empty() by {
                    if j < i as int && m0.order@[j] == kind {
                        assert(j == i as int);
                    }
                }
                assert forall|kk: SourceKind|
                    !m0.is_registered(kk) implies self.queue_of(kk) == m0.queue_of(kk) by {
                    assert(m0.order@[i as int] == kind);
                    assert(kk != kind);
                }
            }
            i = i + 1;
        }
        proof {
            assert(self.dispatch_from(n as int) == Seq::<DispatchedEvent>::empty());
            assert(delivered@ + Seq::<DispatchedEvent>::empty() =~= delivered@);
            assert(delivered@ == m0.dispatch_order());
            assert forall|k: SourceKind|
                m0.is_registered(k) implies self.queue_of(k) == Seq::<EventPayload>::empty() by {
                let j = choose|j: int| 0 <= j < m0.order@.len() && m0.order@[j] == k;
                assert(self.queue_of(m0.order@[j]) == Seq::<EventPayload>::empty());
            }
        }
        delivered
    }

    /// How many events one source has pending.
    fn queue_len(&self, kind: SourceKind) -> (n: usize)
        ensures
            n == self.queue_of(kind).len(),
    {
        match kind {
            SourceKind::SessionNotifier => self.session_queue.len(),
            SourceKind::HotPlugNotifier => self.hotplug_queue.len(),
            SourceKind::InputBackend => self.input_queue.len(),
            SourceKind::ClientListener => self.client_queue.len(),
            SourceKind::ProtocolDispatch => self.protocol_queue.len(),
            SourceKind::DisplayNotifier => self.display_queue.len(),
        }
    }

    /// The `k`th pending event of one source.
    fn queue_at(&self, kind: SourceKind, k: usize) -> (p: EventPayload)
        requires
            k < self.queue_of(kind).len(),
        ensures
            p == self.queue_of(kind)[k as int],
    {
        match kind {
            SourceKind::SessionNotifier => self.session_queue[k],
            SourceKind::HotPlugNotifier => self.hotplug_queue[k],
            SourceKind::InputBackend => self.input_queue[k],
            SourceKind::ClientListener => self.client_queue[k],
            SourceKind::ProtocolDispatch => self.protocol_queue[k],
            SourceKind::DisplayNotifier => self.display_queue[k],
        }
    }

    /// Empty one source's queue.
    fn clear_queue(&mut self, kind: SourceKind)
        ensures
            final(self).order@ == old(self).order@,
            final(self).queue_of(kind) == Seq::<EventPayload>::empty(),
            forall|k: SourceKind| k != kind ==> final(self).queue_of(k) == old(self).queue_of(k),
    {
        match kind {
            SourceKind::SessionNotifier => self.session_queue = Vec::new(),
            SourceKind::HotPlugNotifier => self.hotplug_queue = Vec::new(),
            SourceKind::InputBackend => self.input_queue = Vec::new(),
            SourceKind::ClientListener => self.client_queue = Vec::new(),
            SourceKind::ProtocolDispatch => self.protocol_queue = Vec::new(),
            SourceKind::DisplayNotifier => self.display_queue = Vec::new(),
        }
    }
}

/// Delivery order from position `i` on depends only on the registration
/// order and the queues of the sources at positions `i` and beyond.
pub proof fn lemma_dispatch_from_queues(a: EventMultiplexer, b: EventMultiplexer, i: int)
    requires
        a.order@ == b.order@,
        forall|j: int|
            i <= j < a.order@.len() ==> b.queue_of(a.order@[j]) == a.queue_of(a.order@[j]),
    ensures
        b.dispatch_from(i) == a.dispatch_from(i),
    decreases a.order@.len() - i,
{
    if 0 <= i < a.order@.len() {
        lemma_dispatch_from_queues(a, b, i + 1);
        assert(b.events_of(a.order@[i]) =~= a.events_of(a.order@[i]));
    }
}

/// How many events the sources registered before position `i` deliver in
/// one wakeup.
pub open spec fn events_before(m: EventMultiplexer, i: int) -> int
    decreases i,
{
    if 0 < i <= m.order@.len() {
        events_before(m, i - 1) + m.queue_of(m.order@[i - 1]).len()
    } else {
        0
    }
}

/// Delivery is fair and ordered: the `k`th pending event of the source
/// registered at position `i` is delivered at position `events_before(m, i)
/// + k` of the wakeup. So events of one source keep their arrival order,
/// and every event of an earlier-registered source is delivered before
/// every event of a later-registered one.
pub proof fn lemma_delivery_positions(m: EventMultiplexer, i: int, k: int)
    requires
        0 <= i < m.order@.len(),
        0 <= k < m.queue_of(m.order@[i]).len(),
    ensures
        0 <= events_before(m, i) + k < m.dispatch_order().len(),
        m.dispatch_order()[events_before(m, i) + k] == (DispatchedEvent {
            source: m.order@[i],
            payload: m.queue_of(m.order@[i])[k],
        }),
{
    lemma_dispatch_positions_from(m, 0, i, k);
}

/// `dispatch_from(p)` lays the sources out contiguously: the `k`th event
/// of the source at position `i >= p` lands after every event of the
/// sources at positions `p..i`.
proof fn lemma_dispatch_positions_from(m: EventMultiplexer, p: int, i: int, k: int)
    requires
        0 <= p <= i < m.order@.len(),
        0 <= k < m.queue_of(m.order@[i]).len(),
    ensures
        0 <= (events_before(m, i) - events_before(m, p)) + k < m.dispatch_from(p).len(),
        m.dispatch_from(p)[(events_before(m, i) - events_before(m, p)) + k] == (DispatchedEvent {
            source: m.order@[i],
            payload: m.queue_of(m.order@[i])[k],
        }),
    decreases i - p,
{
    lemma_events_before_monotone(m, p, i);
    if p == i {
        assert(m.dispatch_from(p)[k] == m.events_of(m.order@[p])[k]);
    } else {
        lemma_dispatch_positions_from(m, p + 1, i, k);
        assert(events_before(m, p + 1) == events_before(m, p) + m.queue_of(m.order@[p]).len());
        assert(m.dispatch_from(p)[m.events_of(m.order@[p]).len() + ((events_before(m, i)
            - events_before(m, p + 1)) + k)] == m.dispatch_from(p + 1)[(events_before(m, i)
            - events_before(m, p + 1)) + k]);
    }
}

/// `events_before` grows with the position.
proof fn lemma_events_before_monotone(m: EventMultiplexer, p: int, i: int)
    requires
        0 <= p <= i <= m.order@.len(),
    ensures
        events_before(m, p) <= events_before(m, i),
    decreases i - p,
{
    if p < i {
        lemma_events_before_monotone(m, p, i - 1);
    }
}

} // verus!
