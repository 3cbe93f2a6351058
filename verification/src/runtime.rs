use vstd::prelude::*;
use crate::bridge::{FrameBridge, FrameTarget};
use crate::input::{InputTranslator, KeyDecision, PortableKey, spec_decide};
use crate::multiplexer::{DispatchedEvent, EventMultiplexer, EventPayload, RegistrationError, SourceKind};
use crate::pacer::FramePacer;
use crate::registry::{Client, ClientRegistry};
use crate::swapchain::{
    complete_step, op_enabled, op_step, AcquireError, HardwareOutputController, SlotOp, SlotState,
    SubmitError,
};

verus! {

/// What one reactor cycle decided.
#[derive(Clone, Copy, PartialEq, Eq, Structural, Debug)]
pub enum CycleOutcome {
    /// Shutdown was requested; the embedding loop must exit now, with no
    /// further frame tick.
    Exit,
    /// No frame was due this wakeup.
    Idle,
    /// A frame tick began: the render engine must populate `target`, after
    /// which the embedding process reports back with `finish_tick` (or
    /// `tick_import_failed` when the buffer import fails).
    TickBegun { target: FrameTarget },
    /// A frame was due but every slot is outstanding: the tick is skipped
    /// and the display keeps showing stale content. Reported, not fatal.
    TickSkippedNoFreeSlot,
}

/// Whether one delivered event is a reserved-key shutdown request: a
/// keyboard event that the protocol filter did not consume, carrying the
/// reserved keycode.
pub open spec fn shutdown_trigger(ev: DispatchedEvent, shutdown_keycode: u32) -> bool {
    ev.payload matches EventPayload::Keyboard { keycode, consumed_by_protocol, .. }
        && !consumed_by_protocol && keycode == shutdown_keycode
}

/// What one delivered event adds to the application's input channel: the
/// forwarded portable key, when the event is a keyboard event that neither
/// the protocol filter nor the reserved key claims.
pub open spec fn key_effect(ev: DispatchedEvent, shutdown_keycode: u32) -> Seq<PortableKey> {
    match ev.payload {
        EventPayload::Keyboard { keycode, pressed, modifiers, consumed_by_protocol } => {
            match spec_decide(shutdown_keycode, keycode, pressed, modifiers, consumed_by_protocol) {
                KeyDecision::Forward { key } => seq![key],
                _ => Seq::empty(),
            }
        },
        _ => Seq::empty(),
    }
}

/// What one delivered event does to the swapchain: a completion
/// notification for a queued slot applies the completion step; every other
/// event leaves the slots alone. A completion for a slot that is not
/// queued is stale and is ignored.
pub open spec fn event_slot_step(s: Seq<SlotState>, ev: DispatchedEvent) -> Seq<SlotState> {
    if ev.payload matches EventPayload::PresentationCompleted { slot } && 0 <= slot < s.len()
        && s[slot as int] is Queued {
        complete_step(s, ev.payload->PresentationCompleted_slot as int)
    } else {
        s
    }
}

/// What one delivered event does to the client registry.
pub open spec fn event_client_step(cs: Seq<Client>, next_id: u64, ev: DispatchedEvent) -> (
    Seq<Client>,
    u64,
) {
    if ev.payload matches EventPayload::ClientConnected { .. } && next_id < u64::MAX {
        (cs.push(Client { id: next_id, capability_token: None }), (next_id + 1) as u64)
    } else {
        (cs, next_id)
    }
}

/// What one delivered event does to the recorded modifier mask.
pub open spec fn event_mods_step(mods: u32, ev: DispatchedEvent) -> u32 {
    match ev.payload {
        EventPayload::Keyboard { modifiers, .. } => modifiers,
        _ => mods,
    }
}

/// The keys a whole delivery forwards to the application's input channel,
/// in delivery order.
pub open spec fn forwarded_keys(events: Seq<DispatchedEvent>, shutdown_keycode: u32) -> Seq<
    PortableKey,
>
    decreases events.len(),
{
    if events.len() == 0 {
        Seq::empty()
    } else {
        forwarded_keys(events.drop_last(), shutdown_keycode) + key_effect(
            events.last(),
            shutdown_keycode,
        )
    }
}

/// The swapchain after a whole delivery's completion notifications,
/// applied in delivery order.
pub open spec fn slots_after(s: Seq<SlotState>, events: Seq<DispatchedEvent>) -> Seq<SlotState>
    decreases events.len(),
{
    if events.len() == 0 {
        s
    } else {
        event_slot_step(slots_after(s, events.drop_last()), events.last())
    }
}

/// The client registry after a whole delivery, in delivery order.
pub open spec fn clients_after(cs: Seq<Client>, next_id: u64, events: Seq<DispatchedEvent>) -> (
    Seq<Client>,
    u64,
)
    decreases events.len(),
{
    if events.len() == 0 {
        (cs, next_id)
    } else {
        let prior = clients_after(cs, next_id, events.drop_last());
        event_client_step(prior.0, prior.1, events.last())
    }
}

/// The recorded modifier mask after a whole delivery.
pub open spec fn mods_after(mods: u32, events: Seq<DispatchedEvent>) -> u32
    decreases events.len(),
{
    if events.len() == 0 {
        mods
    } else {
        event_mods_step(mods_after(mods, events.drop_last()), events.last())
    }
}

/// Whether a whole delivery leaves the exit flag set: it was set before,
/// or some delivered event is a reserved-key shutdown request.
pub open spec fn exit_after(
    exit: bool,
    events: Seq<DispatchedEvent>,
    shutdown_keycode: u32,
) -> bool
    decreases events.len(),
{
    if events.len() == 0 {
        exit
    } else {
        exit_after(exit, events.drop_last(), shutdown_keycode) || shutdown_trigger(
            events.last(),
            shutdown_keycode,
        )
    }
}

/// A reserved shutdown key anywhere in one wakeup's delivery sets the exit
/// flag by the end of that very cycle.
pub proof fn lemma_shutdown_exits_within_cycle(
    exit: bool,
    events: Seq<DispatchedEvent>,
    shutdown_keycode: u32,
    i: int,
)
    requires
        0 <= i < events.len(),
        shutdown_trigger(events[i], shutdown_keycode),
    ensures
        exit_after(exit, events, shutdown_keycode),
    decreases events.len(),
{
    if i == events.len() - 1 {
    } else {
        lemma_shutdown_exits_within_cycle(exit, events.drop_last(), shutdown_keycode, i);
    }
}

/// Conversely, the exit flag is only set by a prior request or by a
/// reserved shutdown key in the delivery.
pub proof fn lemma_exit_only_on_shutdown(
    exit: bool,
    events: Seq<DispatchedEvent>,
    shutdown_keycode: u32,
)
    requires
        exit_after(exit, events, shutdown_keycode),
        !exit,
    ensures
        exists|i: int| 0 <= i < events.len() && shutdown_trigger(events[i], shutdown_keycode),
    decreases events.len(),
{
    if events.len() > 0 {
        if shutdown_trigger(events.last(), shutdown_keycode) {
            assert(shutdown_trigger(events[events.len() - 1], shutdown_keycode));
        } else {
            lemma_exit_only_on_shutdown(exit, events.drop_last(), shutdown_keycode);
            let i = choose|i: int|
                0 <= i < events.drop_last().len() && shutdown_trigger(
                    events.drop_last()[i],
                    shutdown_keycode,
                );
            assert(shutdown_trigger(events[i], shutdown_keycode));
        }
    }
}

/// Completion notifications never hand a slot out for writing: a delivery
/// that finds no writable slot leaves none, and keeps the pool discipline.
pub proof fn lemma_slots_after_no_writable(s: Seq<SlotState>, events: Seq<DispatchedEvent>)
    requires
        crate::swapchain::slots_wf(s),
        forall|i: int| 0 <= i < s.len() ==> !(s[i] is Writable),
    ensures
        crate::swapchain::slots_wf(slots_after(s, events)),
        slots_after(s, events).len() == s.len(),
        forall|i: int| 0 <= i < s.len() ==> !(slots_after(s, events)[i] is Writable),
    decreases events.len(),
{
    if events.len() > 0 {
        lemma_slots_after_no_writable(s, events.drop_last());
        let prior = slots_after(s, events.drop_last());
        let ev = events.last();
        if ev.payload matches EventPayload::PresentationCompleted { slot } && 0 <= slot
            < prior.len() && prior[slot as int] is Queued {
            crate::swapchain::lemma_step_preserves_wf(
                prior,
                SlotOp::Complete { slot: ev.payload->PresentationCompleted_slot as int },
            );
        }
    }
}

/// The runtime: one owned aggregate holding every subsystem, handed by
/// exclusive reference into each handler invocation. Exactly one thread
/// owns it; all waiting on readiness, all hardware commits, buffer imports
/// and engine updates are outside work whose outcomes arrive as plain
/// values.
pub struct Runtime {
    pub multiplexer: EventMultiplexer,
    pub pacer: FramePacer,
    pub controller: HardwareOutputController,
    pub bridge: FrameBridge,
    pub translator: InputTranslator,
    pub registry: ClientRegistry,
    /// Keys forwarded to the application's input channel, drained by the
    /// embedding process.
    pub input_channel: Vec<PortableKey>,
    /// Set when a handler requests graceful shutdown; checked after every
    /// wakeup's handlers have run to completion.
    pub exit_requested: bool,
}

impl Runtime {
    pub open spec fn wf(self) -> bool {
        &&& self.multiplexer.wf()
        &&& self.controller.wf()
        &&& self.bridge.wf()
        &&& self.registry.wf()
    }

    /// Between cycles: no tick under way, no buffer handed out.
    pub open spec fn quiescent(self) -> bool {
        &&& self.bridge.idle()
        &&& !self.controller.has_writable()
    }

    /// A tick is under way on the slot the bridge holds.
    pub open spec fn mid_tick(self) -> bool {
        &&& self.bridge.in_progress matches Some(slot)
        &&& (self.bridge.in_progress matches Some(slot) ==> slot < self.controller.slots@.len()
            && self.controller.slots@[slot as int] is Writable)
    }

    /// A fresh runtime: empty reactor, all slots free, nothing pending,
    /// not exiting.
    pub fn new(slot_count: usize, frame_interval: u64, shutdown_keycode: u32) -> (r: Runtime)
        ensures
            r.wf(),
            r.quiescent(),
            !r.exit_requested,
            r.multiplexer.order@ == Seq::<SourceKind>::empty(),
            forall|k: SourceKind| r.multiplexer.queue_of(k) == Seq::<EventPayload>::empty(),
            r.pacer.interval == frame_interval,
            r.pacer.last_tick == 0,
            r.controller.slots@.len() == slot_count,
            forall|i: int| 0 <= i < slot_count ==> r.controller.slots@[i] is Free,
            r.bridge.imports == 0,
            r.bridge.engine_updates == 0,
            r.translator.shutdown_keycode == shutdown_keycode,
            r.registry.clients@ == Seq::<Client>::empty(),
            r.input_channel@ == Seq::<PortableKey>::empty(),
    {
        Runtime {
            multiplexer: EventMultiplexer::new(),
            pacer: FramePacer::new(frame_interval),
            controller: HardwareOutputController::new(slot_count),
            bridge: FrameBridge::new(),
            translator: InputTranslator::new(shutdown_keycode),
            registry: ClientRegistry::new(),
            input_channel: Vec::new(),
            exit_requested: false,
        }
    }

    /// Install one event source in the reactor (delegates to the
    /// multiplexer, keeping the runtime's well-formedness).
    pub fn register_source(&mut self, kind: SourceKind, pollable: bool) -> (r: Result<
        (),
        RegistrationError,
    >)
        requires
            old(self).wf(),
            !old(self).multiplexer.is_registered(kind),
        ensures
            final(self).wf(),
            pollable ==> r is Ok && final(self).multiplexer.order@
                == old(self).multiplexer.order@.push(kind),
            !pollable ==> r is Err && final(self).multiplexer.order@
                == old(self).multiplexer.order@,
            forall|k: SourceKind|
                final(self).multiplexer.queue_of(k) == old(self).multiplexer.queue_of(k),
            final(self).pacer == old(self).pacer,
            final(self).controller == old(self).controller,
            final(self).bridge == old(self).bridge,
            final(self).translator == old(self).translator,
            final(self).registry == old(self).registry,
            final(self).input_channel == old(self).input_channel,
            final(self).exit_requested == old(self).exit_requested,
    {
        self.multiplexer.register(kind, pollable)
    }

    /// Record one arrival from a source (delegates to the multiplexer).
    pub fn push_event(&mut self, kind: SourceKind, payload: EventPayload)
        ensures
            final(self).multiplexer.order@ == old(self).multiplexer.order@,
            final(self).multiplexer.queue_of(kind) == old(self).multiplexer.queue_of(kind).push(
                payload,
            ),
            forall|k: SourceKind|
                k != kind ==> final(self).multiplexer.queue_of(k) == old(self).multiplexer.queue_of(
                    k,
                ),
            final(self).pacer == old(self).pacer,
            final(self).controller == old(self).controller,
            final(self).bridge == old(self).bridge,
            final(self).translator == old(self).translator,
            final(self).registry == old(self).registry,
            final(self).input_channel == old(self).input_channel,
            final(self).exit_requested == old(self).exit_requested,
    {
        self.multiplexer.push_event(kind, payload)
    }

    /// Invoke the handler for one delivered event, inline and to
    /// completion. Handlers never block and never touch the reactor, the
    /// pacer or the bridge; each mutates exactly the state its source owns.
    pub fn handle_event(&mut self, ev: DispatchedEvent)
        requires
            old(self).wf(),
        ensures
            final(self).wf(),
            final(self).multiplexer == old(self).multiplexer,
            final(self).pacer == old(self).pacer,
            final(self).bridge == old(self).bridge,
            final(self).controller.slots@ == event_slot_step(old(self).controller.slots@, ev),
            final(self).registry.clients@ == event_client_step(
                old(self).registry.clients@,
                old(self).registry.next_id,
                ev,
            ).0,
            final(self).registry.next_id == event_client_step(
                old(self).registry.clients@,
                old(self).registry.next_id,
                ev,
            ).1,
            final(self).translator.shutdown_keycode == old(self).translator.shutdown_keycode,
            final(self).translator.focus_state.focus == old(self).translator.focus_state.focus,
            final(self).translator.focus_state.modifiers == event_mods_step(
                old(self).translator.focus_state.modifiers,
                ev,
            ),
            final(self).input_channel@ == old(self).input_channel@ + key_effect(
                ev,
                old(self).translator.shutdown_keycode,
            ),
            final(self).exit_requested == (old(self).exit_requested || shutdown_trigger(
                ev,
                old(self).translator.shutdown_keycode,
            )),
    {
        let ghost pre = *self;
        match ev.payload {
            EventPayload::Keyboard { keycode, pressed, modifiers, consumed_by_protocol } => {
                let decision = self.translator.on_raw_event(
                    keycode,
                    pressed,
                    modifiers,
                    consumed_by_protocol,
                );
                match decision {
                    KeyDecision::Consumed => {},
                    KeyDecision::RequestShutdown => {
                        self.exit_requested = true;
                    },
                    KeyDecision::Forward { key } => {
                        self.input_channel.push(key);
                        proof {
                            assert(pre.input_channel@ + key_effect(
                                ev,
                                pre.translator.shutdown_keycode,
                            ) =~= self.input_channel@);
                        }
                    },
                }
            },
            EventPayload::PresentationCompleted { slot } => {
                if slot < self.controller.slots.len() {
                    if matches!(self.controller.slots[slot], SlotState::Queued) {
                        self.controller.on_completion(slot);
                    }
                }
            },
            EventPayload::ClientConnected { .. } => {
                if self.registry.next_id < u64::MAX {
                    let _id = self.registry.accept();
                }
            },
            EventPayload::SessionChanged => {},
            EventPayload::DeviceAdded { .. } => {},
            EventPayload::DeviceChanged { .. } => {},
            EventPayload::DeviceRemoved { .. } => {},
            EventPayload::Pointer => {},
            EventPayload::ProtocolDataReady => {},
            EventPayload::DisplayFault => {},
        }
        proof {
            if !(ev.payload matches EventPayload::Keyboard { .. }) {
                assert(self.input_channel@ + Seq::<PortableKey>::empty() =~= self.input_channel@);
            } else {
                if key_effect(ev, pre.translator.shutdown_keycode) == Seq::<PortableKey>::empty() {
                    assert(self.input_channel@ + Seq::<PortableKey>::empty()
                        =~= self.input_channel@);
                }
            }
        }
    }

    /// One reactor cycle, run after the outside wait for readiness has fed
    /// every arrival in: deliver all pending events to their handlers in
    /// delivery order, then honour a requested shutdown, then — only when
    /// no shutdown is pending — ask the pacer whether a frame is due and
    /// begin at most one tick. Regardless of how much time has elapsed, a
    /// cycle never begins more than one tick, and a cycle that observes a
    /// shutdown request begins none.
    pub fn run_cycle(&mut self, now: u64) -> (outcome: CycleOutcome)
        requires
            old(self).wf(),
            old(self).quiescent(),
            old(self).pacer.last_tick <= now,
            old(self).bridge.imports < u64::MAX,
        ensures
            final(self).wf(),
            // the reactor is drained, its registration order intact
            final(self).multiplexer.order@ == old(self).multiplexer.order@,
            forall|k: SourceKind|
                old(self).multiplexer.is_registered(k) ==> final(self).multiplexer.queue_of(k)
                    == Seq::<EventPayload>::empty(),
            // every handler ran, in delivery order
            final(self).translator.shutdown_keycode == old(self).translator.shutdown_keycode,
            final(self).translator.focus_state.focus == old(self).translator.focus_state.focus,
            final(self).translator.focus_state.modifiers == mods_after(
                old(self).translator.focus_state.modifiers,
                old(self).multiplexer.dispatch_order(),
            ),
            final(self).input_channel@ == old(self).input_channel@ + forwarded_keys(
                old(self).multiplexer.dispatch_order(),
                old(self).translator.shutdown_keycode,
            ),
            final(self).registry.clients@ == clients_after(
                old(self).registry.clients@,
                old(self).registry.next_id,
                old(self).multiplexer.dispatch_order(),
            ).0,
            final(self).registry.next_id == clients_after(
                old(self).registry.clients@,
                old(self).registry.next_id,
                old(self).multiplexer.dispatch_order(),
            ).1,
            // shutdown wins over everything else, within this very cycle
            final(self).exit_requested == exit_after(
                old(self).exit_requested,
                old(self).multiplexer.dispatch_order(),
                old(self).translator.shutdown_keycode,
            ),
            (outcome is Exit) == final(self).exit_requested,
            final(self).exit_requested ==> ({
                &&& final(self).bridge == old(self).bridge
                &&& final(self).pacer == old(self).pacer
                &&& final(self).controller.slots@ == slots_after(
                    old(self).controller.slots@,
                    old(self).multiplexer.dispatch_order(),
                )
            }),
            // at most one tick per cycle, whatever the elapsed time
            final(self).bridge.imports <= old(self).bridge.imports + 1,
            final(self).bridge.engine_updates == old(self).bridge.engine_updates,
            (outcome matches CycleOutcome::TickBegun { .. }) <==> final(self).bridge.imports
                == old(self).bridge.imports + 1,
            !(outcome matches CycleOutcome::TickBegun { .. }) ==> ({
                &&& final(self).bridge == old(self).bridge
                &&& final(self).quiescent()
            }),
            // the pacer is polled exactly when no shutdown is pending, and a
            // due frame is never passed over in silence
            !final(self).exit_requested ==> final(self).pacer == old(self).pacer.spec_poll(now).0,
            !final(self).exit_requested && old(self).pacer.spec_poll(now).1 ==> ((outcome
                is TickBegun) || (outcome is TickSkippedNoFreeSlot)),
            !final(self).exit_requested && !old(self).pacer.spec_poll(now).1 ==> ({
                &&& outcome is Idle
                &&& final(self).controller.slots@ == slots_after(
                    old(self).controller.slots@,
                    old(self).multiplexer.dispatch_order(),
                )
            }),
            // a due frame acquires the first free slot and begins the tick
            outcome matches CycleOutcome::TickBegun { target } ==> ({
                &&& !final(self).exit_requested
                &&& old(self).pacer.spec_poll(now).1
                &&& target.tick == old(self).bridge.imports
                &&&
                ({
                    let settled = slots_after(
                        old(self).controller.slots@,
                        old(self).multiplexer.dispatch_order(),
                    );
                    &&& op_enabled(settled, SlotOp::Acquire { slot: target.slot as int })
                    &&& (forall|j: int| 0 <= j < target.slot ==> !(settled[j] is Free))
                    &&& final(self).controller.slots@ == op_step(
                        settled,
                        SlotOp::Acquire { slot: target.slot as int },
                    )
                    &&& final(self).bridge.in_progress == Some(target.slot)
                    &&& final(self).mid_tick()
                })
            }),
            // a due frame with every slot outstanding is skipped, reported
            outcome is TickSkippedNoFreeSlot ==> ({
                &&& !final(self).exit_requested
                &&& old(self).pacer.spec_poll(now).1
                &&& forall|j: int|
                    0 <= j < final(self).controller.slots@.len() ==> !(final(self).controller.slots@[j] is Free)
                &&& final(self).controller.slots@ == slots_after(
                    old(self).controller.slots@,
                    old(self).multiplexer.dispatch_order(),
                )
            }),
    {
        let ghost r0 = *self;
        let ghost all = r0.multiplexer.dispatch_order();
        let delivered = self.multiplexer.run_once();
        let n = delivered.len();
        let mut i: usize = 0;
        let ghost mux1 = self.multiplexer;
        proof {
            assert(all.subrange(0, 0) =~= Seq::<DispatchedEvent>::empty());
            assert(self.input_channel@ + Seq::<PortableKey>::empty() =~= self.input_channel@);
        }
        while i < n
            invariant
                self.wf(),
                n == delivered@.len(),
                i <= n,
                delivered@ == all,
                self.multiplexer == mux1,
                self.pacer == r0.pacer,
                self.bridge == r0.bridge,
                self.translator.shutdown_keycode == r0.translator.shutdown_keycode,
                self.translator.focus_state.focus == r0.translator.focus_state.focus,
                self.translator.focus_state.modifiers == mods_after(
                    r0.translator.focus_state.modifiers,
                    all.subrange(0, i as int),
                ),
                self.controller.slots@ == slots_after(
                    r0.controller.slots@,
                    all.subrange(0, i as int),
                ),
                self.registry.clients@ == clients_after(
                    r0.registry.clients@,
                    r0.registry.next_id,
                    all.subrange(0, i as int),
                ).0,
                self.registry.next_id == clients_after(
                    r0.registry.clients@,
                    r0.registry.next_id,
                    all.subrange(0, i as int),
                ).1,
                self.input_channel@ == r0.input_channel@ + forwarded_keys(
                    all.subrange(0, i as int),
                    r0.translator.shutdown_keycode,
                ),
                self.exit_requested == exit_after(
                    r0.exit_requested,
                    all.subrange(0, i as int),
                    r0.translator.shutdown_keycode,
                ),
            decreases n - i,
        {
            let ev = delivered[i];
            let ghost mid = *self;
            self.handle_event(ev);
            proof {
                let code = r0.translator.shutdown_keycode;
                let prefix = all.subrange(0, i as int);
                let prefix1 = all.subrange(0, i as int + 1);
                assert(prefix1.drop_last() =~= prefix);
                assert(prefix1.last() == ev);
                assert(forwarded_keys(prefix1, code) == forwarded_keys(prefix, code) + key_effect(
                    ev,
                    code,
                ));
                assert(self.input_channel@ == (r0.input_channel@ + forwarded_keys(prefix, code))
                    + key_effect(ev, code));
                assert((r0.input_channel@ + forwarded_keys(prefix, code)) + key_effect(ev, code)
                    =~= r0.input_channel@ + (forwarded_keys(prefix, code) + key_effect(ev, code)));
            }
            i = i + 1;
        }
        proof {
            assert(all.subrange(0, n as int) =~= all);
            lemma_slots_after_no_writable(r0.controller.slots@, all);
        }
        if self.exit_requested {
            return CycleOutcome::Exit;
        }
        let tick_due = self.pacer.poll(now);
        if !tick_due {
            return CycleOutcome::Idle;
        }
        match self.controller.acquire_writable_buffer() {
            Ok(slot) => {
                let target = self.bridge.begin_tick(slot);
                CycleOutcome::TickBegun { target }
            },
            Err(AcquireError::NoFreeSlot) => CycleOutcome::TickSkippedNoFreeSlot,
        }
    }

    /// The render engine populated the tick's target and the embedding
    /// process issued the atomic commit; `commit_accepted` is the display
    /// subsystem's verdict. On acceptance the slot is queued behind the
    /// commit. On rejection the error is surfaced, this frame's buffer
    /// goes back to the free pool, and every other slot — in particular
    /// the one being shown — is exactly as it was: the display is
    /// undisturbed and the loop continues.
    pub fn finish_tick(&mut self, commit_accepted: bool) -> (r: Result<(), SubmitError>)
        requires
            old(self).wf(),
            old(self).mid_tick(),
        ensures
            final(self).wf(),
            final(self).quiescent(),
            final(self).bridge.imports == old(self).bridge.imports,
            final(self).bridge.engine_updates == old(self).bridge.engine_updates + 1,
            final(self).multiplexer == old(self).multiplexer,
            final(self).pacer == old(self).pacer,
            final(self).translator == old(self).translator,
            final(self).registry == old(self).registry,
            final(self).input_channel == old(self).input_channel,
            final(self).exit_requested == old(self).exit_requested,
            old(self).bridge.in_progress matches Some(slot) ==> {
                &&& commit_accepted ==> r is Ok && final(self).controller.slots@ == old(
                    self,
                ).controller.slots@.update(slot as int, SlotState::Queued)
                &&& !commit_accepted ==> (r matches Err(e) && e is CommitRejected && final(self).controller.slots@ == old(self).controller.slots@.update(
                    slot as int,
                    SlotState::Free,
                ))
                &&& forall|j: int|
                    0 <= j < old(self).controller.slots@.len() && j != slot
                        ==> final(self).controller.slots@[j] == old(self).controller.slots@[j]
            },
    {
        let slot = self.bridge.complete_tick();
        let result = self.controller.submit(slot, commit_accepted);
        if result.is_err() {
            self.controller.release_writable(slot);
        }
        proof {
            let s1 = self.controller.slots@;
            assert forall|i: int| 0 <= i < s1.len() implies !(s1[i] is Writable) by {
                if i != slot as int && s1[i] is Writable {
                    assert(old(self).controller.slots@[i] is Writable);
                    assert(old(self).controller.slots@[slot as int] is Writable);
                }
            }
        }
        result
    }

    /// The tick's buffer could not be imported by the render engine
    /// (unsupported format, device mismatch): the tick is skipped before
    /// the engine runs, the buffer returns to the free pool, and the
    /// previously displayed buffer remains presented. Reported, not fatal.
    pub fn tick_import_failed(&mut self)
        requires
            old(self).wf(),
            old(self).mid_tick(),
        ensures
            final(self).wf(),
            final(self).quiescent(),
            final(self).bridge.imports == old(self).bridge.imports,
            final(self).bridge.engine_updates == old(self).bridge.engine_updates,
            final(self).multiplexer == old(self).multiplexer,
            final(self).pacer == old(self).pacer,
            final(self).translator == old(self).translator,
            final(self).registry == old(self).registry,
            final(self).input_channel == old(self).input_channel,
            final(self).exit_requested == old(self).exit_requested,
            old(self).bridge.in_progress matches Some(slot) ==> final(self).controller.slots@
                == old(self).controller.slots@.update(slot as int, SlotState::Free) && (forall|
                j: int,
            |
                0 <= j < old(self).controller.slots@.len() && j != slot ==> final(self).controller.slots@[j] == old(self).controller.slots@[j]),
    {
        let slot = self.bridge.abort_tick();
        self.controller.release_writable(slot);
    }

    /// Whether a handler has requested graceful shutdown; the embedding
    /// loop checks this after every cycle and exits.
    pub fn should_exit(&self) -> (b: bool)
        ensures
            b == self.exit_requested,
    {
        self.exit_requested
    }

    /// Drain the application's input channel: the portable keys forwarded
    /// since the last drain, in delivery order.
    pub fn take_input(&mut self) -> (keys: Vec<PortableKey>)
        ensures
            keys@ == old(self).input_channel@,
            final(self).input_channel@ == Seq::<PortableKey>::empty(),
            final(self).multiplexer == old(self).multiplexer,
            final(self).pacer == old(self).pacer,
            final(self).controller == old(self).controller,
            final(self).bridge == old(self).bridge,
            final(self).translator == old(self).translator,
            final(self).registry == old(self).registry,
            final(self).exit_requested == old(self).exit_requested,
    {
        let n = self.input_channel.len();
        let mut keys: Vec<PortableKey> = Vec::new();
        let mut i: usize = 0;
        while i < n
            invariant
                n == self.input_channel@.len(),
                i <= n,
                *self == *old(self),
                keys@ == self.input_channel@.subrange(0, i as int),
            decreases n - i,
        {
            keys.push(self.input_channel[i]);
            proof {
                assert(keys@ =~= self.input_channel@.subrange(0, i as int + 1));
            }
            i = i + 1;
        }
        proof {
            assert(keys@ =~= self.input_channel@);
        }
        self.input_channel = Vec::new();
        keys
    }
}

} // verus!
