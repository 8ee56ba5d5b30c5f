use slotpaste::keys::{keycode_to_key, Key, SlotId};
use slotpaste::log_text::{key_debug, preview_for_log};

const ALL: [SlotId; 6] = [SlotId::J, SlotId::K, SlotId::L, SlotId::U, SlotId::I, SlotId::O];

#[test]
fn labels_are_the_six_letters() {
    let labels: Vec<&str> = ALL.iter().map(|s| s.label()).collect();
    assert_eq!(labels, vec!["J", "K", "L", "U", "I", "O"]);
}

#[test]
fn numbers_run_from_one_to_six() {
    let numbers: Vec<u8> = ALL.iter().map(|s| s.number()).collect();
    assert_eq!(numbers, vec![1, 2, 3, 4, 5, 6]);
}

#[test]
fn from_number_inverts_number() {
    for slot in ALL {
        assert_eq!(SlotId::from_number(slot.number()), Some(slot));
    }
}

#[test]
fn from_number_rejects_out_of_range() {
    assert_eq!(SlotId::from_number(0), None);
    assert_eq!(SlotId::from_number(7), None);
    assert_eq!(SlotId::from_number(255), None);
}

#[test]
fn from_label_inverts_label() {
    for slot in ALL {
        assert_eq!(SlotId::from_label(slot.label()), Some(slot));
    }
}

#[test]
fn from_label_rejects_other_text() {
    assert_eq!(SlotId::from_label(""), None);
    assert_eq!(SlotId::from_label("j"), None);
    assert_eq!(SlotId::from_label("JK"), None);
    assert_eq!(SlotId::from_label("A"), None);
    assert_eq!(SlotId::from_label(" J"), None);
    assert_eq!(SlotId::from_label("\u{e9}"), None);
}

#[test]
fn keycode_table() {
    assert_eq!(keycode_to_key(38), Key::Slot(SlotId::J));
    assert_eq!(keycode_to_key(40), Key::Slot(SlotId::K));
    assert_eq!(keycode_to_key(37), Key::Slot(SlotId::L));
    assert_eq!(keycode_to_key(32), Key::Slot(SlotId::U));
    assert_eq!(keycode_to_key(34), Key::Slot(SlotId::I));
    assert_eq!(keycode_to_key(31), Key::Slot(SlotId::O));
    assert_eq!(keycode_to_key(53), Key::Escape);
    assert_eq!(keycode_to_key(8), Key::C);
    assert_eq!(keycode_to_key(9), Key::V);
}

#[test]
fn keycode_outside_table_is_other() {
    assert_eq!(keycode_to_key(0), Key::Other(0));
    assert_eq!(keycode_to_key(55), Key::Other(55));
    assert_eq!(keycode_to_key(65535), Key::Other(65535));
}

#[test]
fn keycode_outside_sixteen_bits_keeps_low_bits() {
    assert_eq!(keycode_to_key(65536), Key::Other(0));
    assert_eq!(keycode_to_key(65536 + 38), Key::Other(38));
    assert_eq!(keycode_to_key(-1), Key::Other(65535));
    assert_eq!(keycode_to_key(i64::MIN), Key::Other(0));
    assert_eq!(keycode_to_key(i64::MAX), Key::Other(65535));
}

#[test]
fn key_debug_names_each_kind() {
    assert_eq!(key_debug(Key::Slot(SlotId::U)), "slot U");
    assert_eq!(key_debug(Key::Escape), "Esc");
    assert_eq!(key_debug(Key::C), "C");
    assert_eq!(key_debug(Key::V), "V");
    assert_eq!(key_debug(Key::Other(0)), "keycode 0");
    assert_eq!(key_debug(Key::Other(65535)), "keycode 65535");
}

#[test]
fn preview_keeps_short_text() {
    assert_eq!(preview_for_log("hello"), "hello");
    assert_eq!(preview_for_log(""), "");
    assert_eq!(preview_for_log("   "), "");
}

#[test]
fn preview_trims_and_flattens() {
    assert_eq!(preview_for_log("  a\nb\r\nc \n"), "a b  c");
}

#[test]
fn preview_cuts_after_thirty_characters() {
    let thirty = "abcdefghijklmnopqrstuvwxyz0123";
    assert_eq!(thirty.chars().count(), 30);
    assert_eq!(preview_for_log(thirty), thirty);
    let longer = format!("{}4", thirty);
    assert_eq!(preview_for_log(&longer), format!("{}...", thirty));
}

#[test]
fn preview_counts_characters_not_bytes() {
    let thirty: String = "\u{e9}".repeat(30);
    assert_eq!(preview_for_log(&thirty), thirty);
    let longer: String = "\u{e9}".repeat(31);
    assert_eq!(preview_for_log(&longer), format!("{}...", thirty));
}

#[test]
fn preview_agrees_with_trim_and_replace() {
    for s in ["x", " line one\nline two ", "\r\n", "a\rb", "0123456789012345678901234567890123456789"] {
        let trimmed: String = s.trim().replace('\n', " ").replace('\r', " ");
        let chars: Vec<char> = trimmed.chars().collect();
        let expected = if chars.len() <= 30 {
            trimmed
        } else {
            chars.iter().take(30).collect::<String>() + "..."
        };
        assert_eq!(preview_for_log(s), expected);
    }
}
