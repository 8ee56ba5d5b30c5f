use slotpaste::event_tap::{check_permission, convert_event, convert_event_and_swallow, TapEventKind};
use slotpaste::keys::{Key, SlotId};
use slotpaste::state_machine::{Event, CMD_MASK, MODE_IDLE, MODE_PASTE_ACTIVE, MODE_SAVE_PENDING};

const SHIFT: u64 = 0x20000;

#[test]
fn idle_save_hotkey_is_swallowed_and_triggers() {
    assert_eq!(
        convert_event_and_swallow(TapEventKind::KeyDown, 8, CMD_MASK, MODE_IDLE),
        Some((Some(Event::CmdCTrigger), true))
    );
    assert_eq!(
        convert_event_and_swallow(TapEventKind::KeyDown, 8, CMD_MASK | SHIFT, MODE_IDLE),
        Some((Some(Event::CmdCTrigger), true))
    );
}

#[test]
fn idle_paste_hotkey_is_swallowed_and_triggers() {
    assert_eq!(
        convert_event_and_swallow(TapEventKind::KeyDown, 9, CMD_MASK, MODE_IDLE),
        Some((Some(Event::CmdVTrigger), true))
    );
}

#[test]
fn idle_hotkey_letter_without_command_passes() {
    assert_eq!(
        convert_event_and_swallow(TapEventKind::KeyDown, 8, 0, MODE_IDLE),
        Some((Some(Event::KeyDown(Key::C, 0)), false))
    );
    assert_eq!(
        convert_event_and_swallow(TapEventKind::KeyDown, 9, SHIFT, MODE_IDLE),
        Some((Some(Event::KeyDown(Key::V, SHIFT)), false))
    );
}

#[test]
fn idle_hotkey_release_passes() {
    assert_eq!(
        convert_event_and_swallow(TapEventKind::KeyUp, 9, CMD_MASK, MODE_IDLE),
        Some((Some(Event::KeyUp(Key::V, CMD_MASK)), false))
    );
}

#[test]
fn idle_everything_else_passes_with_raw_event() {
    assert_eq!(
        convert_event_and_swallow(TapEventKind::KeyDown, 53, 0, MODE_IDLE),
        Some((Some(Event::KeyDown(Key::Escape, 0)), false))
    );
    assert_eq!(
        convert_event_and_swallow(TapEventKind::KeyUp, 38, 0, MODE_IDLE),
        Some((Some(Event::KeyUp(Key::Slot(SlotId::J), 0)), false))
    );
    assert_eq!(
        convert_event_and_swallow(TapEventKind::KeyDown, 12, CMD_MASK, MODE_IDLE),
        Some((Some(Event::KeyDown(Key::Other(12), CMD_MASK)), false))
    );
    assert_eq!(
        convert_event_and_swallow(TapEventKind::FlagsChanged, 55, CMD_MASK, MODE_IDLE),
        Some((Some(Event::FlagsChanged(CMD_MASK)), false))
    );
}

#[test]
fn chooser_swallows_slot_keys_and_escape() {
    for mode in [MODE_SAVE_PENDING, MODE_PASTE_ACTIVE] {
        for (code, key) in [
            (38, Key::Slot(SlotId::J)),
            (40, Key::Slot(SlotId::K)),
            (37, Key::Slot(SlotId::L)),
            (32, Key::Slot(SlotId::U)),
            (34, Key::Slot(SlotId::I)),
            (31, Key::Slot(SlotId::O)),
            (53, Key::Escape),
        ] {
            assert_eq!(
                convert_event_and_swallow(TapEventKind::KeyDown, code, 0, mode),
                Some((Some(Event::KeyDown(key, 0)), true))
            );
            assert_eq!(
                convert_event_and_swallow(TapEventKind::KeyUp, code, 0, mode),
                Some((None, true))
            );
        }
    }
}

#[test]
fn chooser_passes_everything_else() {
    for mode in [MODE_SAVE_PENDING, MODE_PASTE_ACTIVE] {
        assert_eq!(
            convert_event_and_swallow(TapEventKind::KeyDown, 12, 0, mode),
            Some((Some(Event::KeyDown(Key::Other(12), 0)), false))
        );
        assert_eq!(
            convert_event_and_swallow(TapEventKind::KeyDown, 9, CMD_MASK, mode),
            Some((Some(Event::KeyDown(Key::V, CMD_MASK)), false))
        );
        assert_eq!(
            convert_event_and_swallow(TapEventKind::KeyDown, 8, CMD_MASK, mode),
            Some((Some(Event::KeyDown(Key::C, CMD_MASK)), false))
        );
        assert_eq!(
            convert_event_and_swallow(TapEventKind::KeyUp, 9, CMD_MASK, mode),
            Some((Some(Event::KeyUp(Key::V, CMD_MASK)), false))
        );
        assert_eq!(
            convert_event_and_swallow(TapEventKind::FlagsChanged, 0, 0, mode),
            Some((Some(Event::FlagsChanged(0)), false))
        );
    }
}

#[test]
fn unknown_mode_swallows_nothing() {
    assert_eq!(
        convert_event_and_swallow(TapEventKind::KeyDown, 9, CMD_MASK, 3),
        Some((Some(Event::KeyDown(Key::V, CMD_MASK)), false))
    );
    assert_eq!(
        convert_event_and_swallow(TapEventKind::KeyDown, 38, 0, 200),
        Some((Some(Event::KeyDown(Key::Slot(SlotId::J), 0)), false))
    );
}

#[test]
fn other_kinds_get_no_decision() {
    for kind in [
        TapEventKind::TapDisabledByTimeout,
        TapEventKind::TapDisabledByUserInput,
        TapEventKind::Other,
    ] {
        for mode in [MODE_IDLE, MODE_SAVE_PENDING, MODE_PASTE_ACTIVE] {
            assert_eq!(convert_event_and_swallow(kind, 9, CMD_MASK, mode), None);
        }
        assert_eq!(convert_event(kind, 9, CMD_MASK), None);
    }
}

#[test]
fn convert_event_keeps_key_and_flags() {
    assert_eq!(convert_event(TapEventKind::KeyDown, 9, CMD_MASK), Some(Event::KeyDown(Key::V, CMD_MASK)));
    assert_eq!(convert_event(TapEventKind::KeyUp, 53, 7), Some(Event::KeyUp(Key::Escape, 7)));
    assert_eq!(convert_event(TapEventKind::FlagsChanged, 53, 7), Some(Event::FlagsChanged(7)));
}

#[test]
fn capture_needs_permission() {
    assert_eq!(check_permission(true), Ok(()));
    assert_eq!(
        check_permission(false),
        Err("Accessibility permission not granted. Run `clip doctor` to open System Settings."
            .to_string())
    );
}
