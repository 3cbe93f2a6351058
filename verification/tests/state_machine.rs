use compositor_core::bridge::FrameBridge;
use compositor_core::errors::{
    classify_acquire, classify_registration, classify_setup, classify_submit, ErrorKind,
};
use compositor_core::input::{InputTranslator, KeyDecision, PortableKey};
use compositor_core::multiplexer::RegistrationError;
use compositor_core::pacer::FramePacer;
use compositor_core::registry::ClientRegistry;
use compositor_core::setup::{
    plan_setup, ConnectorInfo, ModeInfo, PlaneInfo, PlaneKind, SetupError,
};
use compositor_core::swapchain::{AcquireError, HardwareOutputController, SlotState, SubmitError};

#[test]
fn slot_cycle_free_writable_queued_presented_free() {
    let mut c = HardwareOutputController::new(3);
    assert_eq!(c.slots, vec![SlotState::Free, SlotState::Free, SlotState::Free]);

    let first = c.acquire_writable_buffer().expect("a free slot");
    assert_eq!(first, 0);
    assert_eq!(c.slots[0], SlotState::Writable);

    c.submit(first, true).expect("accepted commit");
    assert_eq!(c.slots[0], SlotState::Queued);

    c.on_completion(first);
    assert_eq!(c.slots[0], SlotState::Presented);

    // The next frame: acquire a different slot, queue it, and its
    // completion frees the previously presented one.
    let second = c.acquire_writable_buffer().expect("a free slot");
    assert_eq!(second, 1);
    c.submit(second, true).expect("accepted commit");
    c.on_completion(second);
    assert_eq!(c.slots[0], SlotState::Free);
    assert_eq!(c.slots[1], SlotState::Presented);
    assert_eq!(c.slots[2], SlotState::Free);
}

#[test]
fn at_most_one_writable_slot() {
    let mut c = HardwareOutputController::new(2);
    let slot = c.acquire_writable_buffer().expect("a free slot");
    let writable = c.slots.iter().filter(|s| **s == SlotState::Writable).count();
    assert_eq!(writable, 1);
    c.submit(slot, true).expect("accepted commit");
    let writable = c.slots.iter().filter(|s| **s == SlotState::Writable).count();
    assert_eq!(writable, 0);
}

#[test]
fn acquire_with_all_slots_outstanding_fails_and_mutates_nothing() {
    let mut c = HardwareOutputController::new(2);
    let a = c.acquire_writable_buffer().expect("a free slot");
    c.submit(a, true).expect("accepted commit");
    let b = c.acquire_writable_buffer().expect("a free slot");
    c.submit(b, true).expect("accepted commit");

    let before = c.slots.clone();
    let err = c.acquire_writable_buffer().expect_err("no slot is free");
    assert_eq!(err, AcquireError::NoFreeSlot);
    assert_eq!(c.slots, before);
}

#[test]
fn rejected_commit_leaves_every_slot_as_it_was() {
    let mut c = HardwareOutputController::new(3);
    let a = c.acquire_writable_buffer().expect("a free slot");
    c.submit(a, true).expect("accepted commit");
    c.on_completion(a);
    assert_eq!(c.slots[a], SlotState::Presented);

    let b = c.acquire_writable_buffer().expect("a free slot");
    let err = c.submit(b, false).expect_err("rejected commit");
    assert_eq!(err, SubmitError::CommitRejected);
    // The slot that is shown stays shown; the writable slot stays writable.
    assert_eq!(c.slots[a], SlotState::Presented);
    assert_eq!(c.slots[b], SlotState::Writable);
}

#[test]
fn pacer_produces_no_tick_before_the_interval_elapses() {
    let mut p = FramePacer::new(1_000);
    assert!(!p.poll(0));
    assert!(!p.poll(500));
    assert!(!p.poll(999));
    assert!(p.poll(1_000));
}

#[test]
fn pacer_produces_one_tick_after_a_long_delay_without_catch_up() {
    let mut p = FramePacer::new(1_000);
    // Ten intervals elapse at once: a single tick, and the clock resets to
    // now, so the very next poll is quiet.
    assert!(p.poll(10_000));
    assert!(!p.poll(10_500));
    assert!(!p.poll(10_999));
    assert!(p.poll(11_000));
}

#[test]
fn bridge_counts_one_import_and_one_update_per_tick() {
    let mut b = FrameBridge::new();
    let target = b.begin_tick(0);
    assert_eq!(target.slot, 0);
    assert_eq!(target.tick, 0);
    assert_eq!(b.imports, 1);
    assert_eq!(b.engine_updates, 0);
    let slot = b.complete_tick();
    assert_eq!(slot, 0);
    assert_eq!(b.imports, 1);
    assert_eq!(b.engine_updates, 1);
}

#[test]
fn bridge_abort_skips_the_engine() {
    let mut b = FrameBridge::new();
    let _ = b.begin_tick(1);
    let slot = b.abort_tick();
    assert_eq!(slot, 1);
    assert_eq!(b.imports, 1);
    assert_eq!(b.engine_updates, 0);
    assert_eq!(b.in_progress, None);
}

#[test]
fn consecutive_ticks_use_distinct_slots() {
    let mut c = HardwareOutputController::new(2);
    let first = c.acquire_writable_buffer().expect("a free slot");
    c.submit(first, true).expect("accepted commit");
    let second = c.acquire_writable_buffer().expect("a free slot");
    assert_ne!(first, second);
}

#[test]
fn translator_forwards_ordinary_keys_with_current_modifiers() {
    let mut t = InputTranslator::new(1);
    let d = t.on_raw_event(30, true, 0x4, false);
    assert_eq!(
        d,
        KeyDecision::Forward { key: PortableKey { code: 30, modifiers: 0x4, pressed: true } }
    );
    assert_eq!(t.focus_state.modifiers, 0x4);
}

#[test]
fn translator_lets_the_protocol_filter_consume_first() {
    let mut t = InputTranslator::new(1);
    let d = t.on_raw_event(1, true, 0, true);
    assert_eq!(d, KeyDecision::Consumed);
}

#[test]
fn translator_turns_the_reserved_key_into_shutdown_not_forwarding() {
    let mut t = InputTranslator::new(1);
    let d = t.on_raw_event(1, true, 0, false);
    assert_eq!(d, KeyDecision::RequestShutdown);
}

#[test]
fn registry_accepts_with_empty_capability_and_removes_on_disconnect() {
    let mut r = ClientRegistry::new();
    let a = r.accept();
    let b = r.accept();
    assert_ne!(a, b);
    assert_eq!(r.client_count(), 2);
    assert_eq!(r.clients[0].capability_token, None);

    assert!(r.on_disconnect(a));
    assert_eq!(r.client_count(), 1);
    assert_eq!(r.clients[0].id, b);
    // A second disconnect of the same client is not known.
    assert!(!r.on_disconnect(a));
    assert_eq!(r.client_count(), 1);
}

#[test]
fn plan_setup_picks_first_usable_connector_and_first_primary_plane() {
    let mode = ModeInfo { width: 2560, height: 1440, refresh_millihertz: 60_000 };
    let other = ModeInfo { width: 1920, height: 1080, refresh_millihertz: 60_000 };
    let connectors = vec![
        ConnectorInfo { connector_id: 10, modes: vec![] },
        ConnectorInfo { connector_id: 11, modes: vec![mode, other] },
        ConnectorInfo { connector_id: 12, modes: vec![other] },
    ];
    let planes = vec![
        PlaneInfo { plane_id: 7, kind: PlaneKind::Cursor },
        PlaneInfo { plane_id: 8, kind: PlaneKind::Primary },
        PlaneInfo { plane_id: 9, kind: PlaneKind::Primary },
    ];
    let plan = plan_setup(&connectors, &planes).expect("a usable binding");
    assert_eq!(plan.connector_index, 1);
    assert_eq!(plan.mode, mode);
    assert_eq!(plan.plane_id, 8);
}

#[test]
fn plan_setup_reports_fatal_discovery_failures() {
    let bare = vec![ConnectorInfo { connector_id: 1, modes: vec![] }];
    let planes = vec![PlaneInfo { plane_id: 8, kind: PlaneKind::Primary }];
    assert_eq!(plan_setup(&bare, &planes).unwrap_err(), SetupError::NoUsableConnector);

    let mode = ModeInfo { width: 640, height: 480, refresh_millihertz: 60_000 };
    let usable = vec![ConnectorInfo { connector_id: 1, modes: vec![mode] }];
    let no_primary = vec![PlaneInfo { plane_id: 7, kind: PlaneKind::Overlay }];
    assert_eq!(plan_setup(&usable, &no_primary).unwrap_err(), SetupError::NoPrimaryPlane);
}

#[test]
fn error_kinds_follow_the_propagation_policy() {
    assert_eq!(classify_setup(SetupError::NoUsableConnector), ErrorKind::SetupFailure);
    assert_eq!(
        classify_registration(RegistrationError::UnpollableSource),
        ErrorKind::SetupFailure
    );
    assert_eq!(classify_acquire(AcquireError::NoFreeSlot), ErrorKind::ResourceExhaustion);
    assert_eq!(classify_submit(SubmitError::CommitRejected), ErrorKind::RuntimeTransient);
    assert!(!ErrorKind::SetupFailure.survivable());
    assert!(ErrorKind::ResourceExhaustion.survivable());
}
