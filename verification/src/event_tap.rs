//! The input capture gate: which keystrokes are swallowed, and which events
//! are forwarded to the state machine, given the published mode.

use crate::keys::{key_of, keycode_to_key, Key};
use crate::state_machine::{
    Event,
    EventView,
    CMD_MASK,
    MODE_IDLE,
    MODE_PASTE_ACTIVE,
    MODE_SAVE_PENDING,
};
use vstd::prelude::*;

verus! {

/// The kind of a raw event handed to the tap.
#[derive(Debug, Clone, Copy, PartialEq, Eq, Structural)]
pub enum TapEventKind {
    KeyDown,
    KeyUp,
    FlagsChanged,
    /// The system switched the tap off because it was too slow.
    TapDisabledByTimeout,
    /// The system switched the tap off on the user's behalf.
    TapDisabledByUserInput,
    /// Any other kind of event.
    Other,
}

/// A decision of the tap as a mathematical value: the event to forward to
/// the state machine, if any, and whether the keystroke is kept from the
/// foreground application.
pub open spec fn decision_view(decision: Option<(Option<Event>, bool)>) -> Option<
    (Option<EventView>, bool),
> {
    match decision {
        Some((forward, swallow)) => Some(
            (
                match forward {
                    Some(e) => Some(e@),
                    None => None,
                },
                swallow,
            ),
        ),
        None => None,
    }
}

/// Whether the command key is among the modifier flags.
pub open spec fn cmd_held(flags: u64) -> bool {
    (flags & CMD_MASK) != 0
}

/// Whether a chooser is open in the published mode.
pub open spec fn choosing(mode: u8) -> bool {
    mode == MODE_SAVE_PENDING || mode == MODE_PASTE_ACTIVE
}

/// Whether a key picks a slot or dismisses the chooser.
pub open spec fn is_chooser_key(key: Key) -> bool {
    key is Slot || key is Escape
}

/// The raw event as the state machine sees it, for the three kinds that
/// have one.
pub open spec fn raw_event(kind: TapEventKind, keycode: i64, flags: u64) -> Option<EventView> {
    match kind {
        TapEventKind::KeyDown => Some(EventView::KeyDown(key_of(keycode), flags)),
        TapEventKind::KeyUp => Some(EventView::KeyUp(key_of(keycode), flags)),
        TapEventKind::FlagsChanged => Some(EventView::FlagsChanged(flags)),
        _ => None,
    }
}

/// The swallow policy.
///
/// In Idle a hotkey going down with the command key held is swallowed and
/// becomes its trigger; everything else passes with its raw event. While a
/// chooser is open, slot keys and Escape are swallowed, down and up, and
/// only the key-down is forwarded; everything else passes with its raw
/// event. Kinds other than key-down, key-up and flags-changed get no
/// decision.
pub open spec fn policy(kind: TapEventKind, keycode: i64, flags: u64, mode: u8) -> Option<
    (Option<EventView>, bool),
> {
    let key = key_of(keycode);
    match kind {
        TapEventKind::KeyDown => if mode == MODE_IDLE && key == Key::C && cmd_held(flags) {
            Some((Some(EventView::CmdCTrigger), true))
        } else if mode == MODE_IDLE && key == Key::V && cmd_held(flags) {
            Some((Some(EventView::CmdVTrigger), true))
        } else if choosing(mode) && is_chooser_key(key) {
            Some((Some(EventView::KeyDown(key, flags)), true))
        } else {
            Some((Some(EventView::KeyDown(key, flags)), false))
        },
        TapEventKind::KeyUp => if choosing(mode) && is_chooser_key(key) {
            Some((None, true))
        } else {
            Some((Some(EventView::KeyUp(key, flags)), false))
        },
        TapEventKind::FlagsChanged => Some((Some(EventView::FlagsChanged(flags)), false)),
        _ => None,
    }
}

/// The message with which capture refuses to start without permission.
pub open spec fn permission_error() -> Seq<char> {
    "Accessibility permission not granted. Run `clip doctor` to open System Settings."@
}

/// In Idle nothing but the two hotkeys is swallowed, and whatever passes
/// is forwarded as the raw event it is.
pub proof fn lemma_idle_passes(kind: TapEventKind, keycode: i64, flags: u64)
    requires
        !(kind is KeyDown && cmd_held(flags) && (key_of(keycode) == Key::C || key_of(keycode)
            == Key::V)),
    ensures
        policy(kind, keycode, flags, MODE_IDLE) matches Some(v) ==> !v.1 && v.0 == raw_event(
            kind,
            keycode,
            flags,
        ),
        policy(kind, keycode, flags, MODE_IDLE) is Some <==> raw_event(kind, keycode, flags)
            is Some,
{
}

/// Whatever the mode, a swallowed keystroke never reaches the machine as
/// anything but a trigger or the key-down of a chooser key, and a trigger
/// only ever comes from Idle.
pub proof fn lemma_swallowed(kind: TapEventKind, keycode: i64, flags: u64, mode: u8)
    ensures
        policy(kind, keycode, flags, mode) matches Some(v) ==> {
            &&& v.0 is Some && (v.0->0 is CmdCTrigger || v.0->0 is CmdVTrigger) ==> v.1 && mode
                == MODE_IDLE
            &&& v.1 && !(mode == MODE_IDLE) ==> choosing(mode) && is_chooser_key(key_of(keycode))
        },
{
}

/// Converts a raw event to the event the state machine sees.
pub fn convert_event(kind: TapEventKind, keycode: i64, flags: u64) -> (event: Option<Event>)
    ensures
        (match event {
            Some(e) => Some(e@),
            None => None,
        }) == raw_event(kind, keycode, flags),
{
    let key: Key = keycode_to_key(keycode);
    match kind {
        TapEventKind::KeyDown => Some(Event::KeyDown(key, flags)),
        TapEventKind::KeyUp => Some(Event::KeyUp(key, flags)),
        TapEventKind::FlagsChanged => Some(Event::FlagsChanged(flags)),
        _ => None,
    }
}

/// Decides one raw event under the published mode: the event to forward,
/// if any, and whether to swallow the keystroke.
pub fn convert_event_and_swallow(kind: TapEventKind, keycode: i64, flags: u64, mode: u8) -> (decision:
    Option<(Option<Event>, bool)>)
    ensures
        decision_view(decision) == policy(kind, keycode, flags, mode),
{
    let key: Key = keycode_to_key(keycode);
    let cmd: bool = (flags & CMD_MASK) != 0;
    let choosing: bool = mode == MODE_SAVE_PENDING || mode == MODE_PASTE_ACTIVE;
    let chooser_key: bool = match key {
        Key::Slot(_) => true,
        Key::Escape => true,
        _ => false,
    };
    match kind {
        TapEventKind::KeyDown => {
            if mode == MODE_IDLE && key == Key::C && cmd {
                Some((Some(Event::CmdCTrigger), true))
            } else if mode == MODE_IDLE && key == Key::V && cmd {
                Some((Some(Event::CmdVTrigger), true))
            } else {
                Some((Some(Event::KeyDown(key, flags)), choosing && chooser_key))
            }
        },
        TapEventKind::KeyUp => {
            if choosing && chooser_key {
                Some((None, true))
            } else {
                Some((Some(Event::KeyUp(key, flags)), false))
            }
        },
        TapEventKind::FlagsChanged => Some((Some(Event::FlagsChanged(flags)), false)),
        _ => None,
    }
}

/// Capture starts only with permission: without it the caller gets the
/// message to show, and must not start any thread.
pub fn check_permission(granted: bool) -> (res: Result<(), String>)
    ensures
        res is Ok <==> granted,
        res matches Err(msg) ==> msg@ == permission_error(),
{
    if granted {
        Ok(())
    } else {
        Err(
            "Accessibility permission not granted. Run `clip doctor` to open System Settings.".to_owned(),
        )
    }
}

} // verus!
