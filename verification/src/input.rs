use vstd::prelude::*;

verus! {

/// A keyboard event in portable form, ready for the application's input
/// channel: the portable keycode from the delegated keymap, the modifier
/// mask in force at the event, and the key direction.
#[derive(Clone, Copy, PartialEq, Eq, Structural, Debug)]
pub struct PortableKey {
    pub code: u32,
    pub modifiers: u32,
    pub pressed: bool,
}

/// What becomes of one raw keyboard event.
#[derive(Clone, Copy, PartialEq, Eq, Structural, Debug)]
pub enum KeyDecision {
    /// The protocol library's focus filtering claimed the event
    /// (a protocol-level shortcut); it goes no further.
    Consumed,
    /// Deliver the portable key to the application's input channel.
    Forward { key: PortableKey },
    /// The reserved key: request graceful shutdown of the whole runtime
    /// instead of forwarding.
    RequestShutdown,
}

/// Current modifier mask and keyboard focus target. Mutated only by the
/// `InputTranslator`, on the reactor thread; read by protocol handlers to
/// route key events.
#[derive(Clone, Copy, PartialEq, Eq, Structural, Debug)]
pub struct InputFocusState {
    /// Modifier bitmask as reported by the delegated keymap state.
    pub modifiers: u32,
    /// Protocol id of the focused surface, when one has focus.
    pub focus: Option<u64>,
}

/// Translates raw input-device events into portable key events. The
/// raw-keycode-to-portable-key mapping and the modifier tracking are the
/// delegated keymap's work and arrive as plain values; the translator owns
/// the focus state, the filtering decision and the reserved shutdown key.
pub struct InputTranslator {
    /// The one portable keycode whose events request shutdown.
    pub shutdown_keycode: u32,
    /// The focus state this translator maintains.
    pub focus_state: InputFocusState,
}

/// The decision for one raw keyboard event: the protocol filter's verdict
/// wins first, then the reserved key, and everything else is forwarded
/// stamped with the modifier mask at the event.
pub open spec fn spec_decide(
    shutdown_keycode: u32,
    keycode: u32,
    pressed: bool,
    modifiers: u32,
    consumed_by_protocol: bool,
) -> KeyDecision {
    if consumed_by_protocol {
        KeyDecision::Consumed
    } else if keycode == shutdown_keycode {
        KeyDecision::RequestShutdown
    } else {
        KeyDecision::Forward { key: PortableKey { code: keycode, modifiers, pressed } }
    }
}

impl InputTranslator {
    pub fn new(shutdown_keycode: u32) -> (t: InputTranslator)
        ensures
            t.shutdown_keycode == shutdown_keycode,
            t.focus_state.modifiers == 0,
            t.focus_state.focus is None,
    {
        InputTranslator {
            shutdown_keycode,
            focus_state: InputFocusState { modifiers: 0, focus: None },
        }
    }

    /// Translate one raw keyboard event. Records the keymap's modifier
    /// mask as the current focus-state mask, then decides: an event the
    /// protocol filter consumed is dropped, an event of the reserved key
    /// requests shutdown instead of forwarding, and every other event is
    /// forwarded as a portable key.
    pub fn on_raw_event(
        &mut self,
        keycode: u32,
        pressed: bool,
        modifiers: u32,
        consumed_by_protocol: bool,
    ) -> (d: KeyDecision)
        ensures
            d == spec_decide(
                old(self).shutdown_keycode,
                keycode,
                pressed,
                modifiers,
                consumed_by_protocol,
            ),
            final(self).shutdown_keycode == old(self).shutdown_keycode,
            final(self).focus_state.modifiers == modifiers,
            final(self).focus_state.focus == old(self).focus_state.focus,
    {
        self.focus_state.modifiers = modifiers;
        if consumed_by_protocol {
            KeyDecision::Consumed
        } else if keycode == self.shutdown_keycode {
            KeyDecision::RequestShutdown
        } else {
            KeyDecision::Forward {
                key: PortableKey { code: keycode, modifiers, pressed },
            }
        }
    }

    /// Move keyboard focus; `None` clears it.
    pub fn set_focus(&mut self, focus: Option<u64>)
        ensures
            final(self).focus_state.focus == focus,
            final(self).focus_state.modifiers == old(self).focus_state.modifiers,
            final(self).shutdown_keycode == old(self).shutdown_keycode,
    {
        self.focus_state.focus = focus;
    }
}

} // verus!
