use compositor_core::input::PortableKey;
use compositor_core::multiplexer::{EventMultiplexer, EventPayload, SourceKind};
use compositor_core::runtime::{CycleOutcome, Runtime};
use compositor_core::swapchain::{SlotState, SubmitError};

const SHUTDOWN_KEY: u32 = 1;
const INTERVAL: u64 = 1_000;

fn runtime_with_sources(slots: usize) -> Runtime {
    let mut rt = Runtime::new(slots, INTERVAL, SHUTDOWN_KEY);
    // The registration order of the running process: session, hot-plug,
    // input, client listener, protocol dispatch, display notifier.
    rt.register_source(SourceKind::SessionNotifier, true).expect("pollable");
    rt.register_source(SourceKind::HotPlugNotifier, true).expect("pollable");
    rt.register_source(SourceKind::InputBackend, true).expect("pollable");
    rt.register_source(SourceKind::ClientListener, true).expect("pollable");
    rt.register_source(SourceKind::ProtocolDispatch, true).expect("pollable");
    rt.register_source(SourceKind::DisplayNotifier, true).expect("pollable");
    rt
}

fn key(code: u32) -> EventPayload {
    EventPayload::Keyboard { keycode: code, pressed: true, modifiers: 0, consumed_by_protocol: false }
}

#[test]
fn registration_fails_for_an_unpollable_source() {
    let mut m = EventMultiplexer::new();
    assert!(m.register(SourceKind::SessionNotifier, false).is_err());
    assert!(m.register(SourceKind::SessionNotifier, true).is_ok());
}

#[test]
fn same_source_events_keep_arrival_order_across_sources_registration_order() {
    // Register A (input backend) then B (display notifier); fire both
    // between two wakeups; the delivery shows all of A before all of B.
    let mut m = EventMultiplexer::new();
    m.register(SourceKind::InputBackend, true).expect("pollable");
    m.register(SourceKind::DisplayNotifier, true).expect("pollable");

    m.push_event(SourceKind::DisplayNotifier, EventPayload::DisplayFault);
    m.push_event(SourceKind::InputBackend, key(30));
    m.push_event(SourceKind::InputBackend, key(31));
    m.push_event(SourceKind::DisplayNotifier, EventPayload::PresentationCompleted { slot: 0 });

    let delivered = m.run_once();
    let log: Vec<(SourceKind, EventPayload)> =
        delivered.iter().map(|d| (d.source, d.payload)).collect();
    assert_eq!(
        log,
        vec![
            (SourceKind::InputBackend, key(30)),
            (SourceKind::InputBackend, key(31)),
            (SourceKind::DisplayNotifier, EventPayload::DisplayFault),
            (SourceKind::DisplayNotifier, EventPayload::PresentationCompleted { slot: 0 }),
        ]
    );

    // The timeout path: nothing pending delivers nothing and returns.
    assert!(m.run_once().is_empty());
}

#[test]
fn one_frame_tick_per_cycle_and_the_full_swap_cycle() {
    let mut rt = runtime_with_sources(2);

    // First cycle, a whole interval later: exactly one tick begins.
    let outcome = rt.run_cycle(2 * INTERVAL);
    let target = match outcome {
        CycleOutcome::TickBegun { target } => target,
        other => panic!("expected a tick, got {other:?}"),
    };
    assert_eq!(target.slot, 0);
    assert_eq!(rt.bridge.imports, 1);

    // The engine rendered; the commit is accepted.
    rt.finish_tick(true).expect("accepted commit");
    assert_eq!(rt.controller.slots[0], SlotState::Queued);
    assert_eq!(rt.bridge.engine_updates, 1);

    // The completion notification arrives through the reactor and frees
    // nothing yet (nothing was presented before); the slot is now shown.
    rt.push_event(SourceKind::DisplayNotifier, EventPayload::PresentationCompleted { slot: 0 });
    let outcome = rt.run_cycle(2 * INTERVAL + 1);
    assert!(matches!(outcome, CycleOutcome::Idle));
    assert_eq!(rt.controller.slots[0], SlotState::Presented);
}

#[test]
fn a_delayed_reactor_still_gets_at_most_one_tick_per_cycle() {
    let mut rt = runtime_with_sources(3);
    // Many intervals elapse before the cycle runs: still one tick.
    let outcome = rt.run_cycle(50 * INTERVAL);
    assert!(matches!(outcome, CycleOutcome::TickBegun { .. }));
    assert_eq!(rt.bridge.imports, 1);
    rt.finish_tick(true).expect("accepted commit");
    // The immediately following cycle is within the interval: no tick.
    let outcome = rt.run_cycle(50 * INTERVAL + 2);
    assert!(matches!(outcome, CycleOutcome::Idle));
    assert_eq!(rt.bridge.imports, 1);
}

#[test]
fn slot_exhaustion_skips_the_tick_and_reports() {
    let mut rt = runtime_with_sources(1);
    let outcome = rt.run_cycle(2 * INTERVAL);
    assert!(matches!(outcome, CycleOutcome::TickBegun { .. }));
    rt.finish_tick(true).expect("accepted commit");

    // The only slot is still queued when the next frame is due.
    let outcome = rt.run_cycle(4 * INTERVAL);
    assert_eq!(outcome, CycleOutcome::TickSkippedNoFreeSlot);
    assert_eq!(rt.controller.slots[0], SlotState::Queued);
    assert_eq!(rt.bridge.imports, 1);
}

#[test]
fn shutdown_key_exits_within_one_cycle_with_no_further_tick() {
    let mut rt = runtime_with_sources(2);
    rt.push_event(SourceKind::InputBackend, key(SHUTDOWN_KEY));
    // A frame is long overdue, but the shutdown request wins.
    let outcome = rt.run_cycle(100 * INTERVAL);
    assert_eq!(outcome, CycleOutcome::Exit);
    assert!(rt.should_exit());
    assert_eq!(rt.bridge.imports, 0);
    assert_eq!(rt.take_input(), vec![]);
}

#[test]
fn consumed_shutdown_key_does_not_exit() {
    let mut rt = runtime_with_sources(2);
    rt.push_event(
        SourceKind::InputBackend,
        EventPayload::Keyboard {
            keycode: SHUTDOWN_KEY,
            pressed: true,
            modifiers: 0,
            consumed_by_protocol: true,
        },
    );
    let outcome = rt.run_cycle(1);
    assert_eq!(outcome, CycleOutcome::Idle);
    assert!(!rt.should_exit());
    assert_eq!(rt.take_input(), vec![]);
}

#[test]
fn forwarded_keys_reach_the_input_channel_in_delivery_order() {
    let mut rt = runtime_with_sources(2);
    rt.push_event(SourceKind::InputBackend, key(30));
    rt.push_event(
        SourceKind::InputBackend,
        EventPayload::Keyboard { keycode: 31, pressed: false, modifiers: 0x4, consumed_by_protocol: false },
    );
    let outcome = rt.run_cycle(1);
    assert_eq!(outcome, CycleOutcome::Idle);
    assert_eq!(
        rt.take_input(),
        vec![
            PortableKey { code: 30, modifiers: 0, pressed: true },
            PortableKey { code: 31, modifiers: 0x4, pressed: false },
        ]
    );
    assert_eq!(rt.translator.focus_state.modifiers, 0x4);
    assert!(rt.take_input().is_empty());
}

#[test]
fn rejected_commit_keeps_the_presented_slot_presented() {
    let mut rt = runtime_with_sources(2);

    // Present a first frame.
    let outcome = rt.run_cycle(2 * INTERVAL);
    assert!(matches!(outcome, CycleOutcome::TickBegun { .. }));
    rt.finish_tick(true).expect("accepted commit");
    rt.push_event(SourceKind::DisplayNotifier, EventPayload::PresentationCompleted { slot: 0 });
    let _ = rt.run_cycle(2 * INTERVAL + 1);
    assert_eq!(rt.controller.slots[0], SlotState::Presented);

    // The next frame's commit is rejected: the error is surfaced, the new
    // buffer returns to the pool, and the display is undisturbed.
    let outcome = rt.run_cycle(4 * INTERVAL);
    let target = match outcome {
        CycleOutcome::TickBegun { target } => target,
        other => panic!("expected a tick, got {other:?}"),
    };
    assert_eq!(target.slot, 1);
    let err = rt.finish_tick(false).expect_err("rejected commit");
    assert_eq!(err, SubmitError::CommitRejected);
    assert_eq!(rt.controller.slots[0], SlotState::Presented);
    assert_eq!(rt.controller.slots[1], SlotState::Free);
    assert!(!rt.should_exit());
}

#[test]
fn failed_buffer_import_skips_the_tick_and_keeps_the_display() {
    let mut rt = runtime_with_sources(2);
    let outcome = rt.run_cycle(2 * INTERVAL);
    assert!(matches!(outcome, CycleOutcome::TickBegun { .. }));
    // The dmabuf import fails: the engine never runs this tick.
    rt.tick_import_failed();
    assert_eq!(rt.bridge.engine_updates, 0);
    assert_eq!(rt.controller.slots[0], SlotState::Free);
    assert_eq!(rt.controller.slots[1], SlotState::Free);
}

#[test]
fn clients_are_accepted_from_listener_events_and_isolated_on_disconnect() {
    let mut rt = runtime_with_sources(2);
    rt.push_event(SourceKind::ClientListener, EventPayload::ClientConnected { connection_id: 77 });
    rt.push_event(SourceKind::ClientListener, EventPayload::ClientConnected { connection_id: 78 });
    let _ = rt.run_cycle(1);
    assert_eq!(rt.registry.client_count(), 2);
    let first = rt.registry.clients[0].id;
    assert!(rt.registry.on_disconnect(first));
    assert_eq!(rt.registry.client_count(), 1);
}

#[test]
fn hot_plug_and_session_events_are_acknowledged_without_core_effect() {
    let mut rt = runtime_with_sources(2);
    rt.push_event(SourceKind::HotPlugNotifier, EventPayload::DeviceAdded { device_id: 5 });
    rt.push_event(SourceKind::HotPlugNotifier, EventPayload::DeviceChanged { device_id: 5 });
    rt.push_event(SourceKind::HotPlugNotifier, EventPayload::DeviceRemoved { device_id: 5 });
    rt.push_event(SourceKind::SessionNotifier, EventPayload::SessionChanged);
    rt.push_event(SourceKind::ProtocolDispatch, EventPayload::ProtocolDataReady);
    let outcome = rt.run_cycle(1);
    assert_eq!(outcome, CycleOutcome::Idle);
    assert!(!rt.should_exit());
    assert_eq!(rt.registry.client_count(), 0);
    assert_eq!(rt.controller.slots, vec![SlotState::Free, SlotState::Free]);
}
