//! Pasting from a slot: the clipboard swap and the key chord that the
//! caller has to carry out.

use crate::state_machine::CMD_MASK;
use crate::text::text_view;
use vstd::prelude::*;

verus! {

/// Delay before the clipboard gets its earlier text back, in milliseconds.
pub const RESTORE_DELAY_MS: u64 = 250;

/// Keycode of the command key.
pub const CMD_KEYCODE: u16 = 55;

/// Keycode of the V key.
pub const V_KEYCODE: u16 = 9;

/// One synthesized keyboard event.
#[derive(Debug, Clone, Copy, PartialEq, Eq, Structural)]
pub struct KeyStroke {
    pub keycode: u16,
    /// Key-down if true, key-up if not.
    pub down: bool,
    /// Modifier flags carried by the event.
    pub flags: u64,
}

/// What pasting a slot's text asks of the caller, in this order: write
/// `write` to the clipboard, post `keys`, and, if `restore` holds a text,
/// write it back after `restore_delay_ms`. A step that fails ends the
/// paste.
#[derive(Debug, Clone, PartialEq, Eq)]
pub struct PastePlan {
    pub write: String,
    pub keys: Vec<KeyStroke>,
    pub restore: Option<String>,
    pub restore_delay_ms: u64,
}

/// The paste chord as a physical keyboard produces it: command down, V
/// down, V up, command up, with the command flag on all but the last.
pub open spec fn chord() -> Seq<KeyStroke> {
    seq![
        KeyStroke { keycode: CMD_KEYCODE, down: true, flags: CMD_MASK },
        KeyStroke { keycode: V_KEYCODE, down: true, flags: CMD_MASK },
        KeyStroke { keycode: V_KEYCODE, down: false, flags: CMD_MASK },
        KeyStroke { keycode: CMD_KEYCODE, down: false, flags: 0 },
    ]
}

/// The four events of the paste chord, in posting order.
pub fn post_cmd_v_realistic() -> (keys: Vec<KeyStroke>)
    ensures
        keys@ == chord(),
{
    let mut keys: Vec<KeyStroke> = Vec::new();
    keys.push(KeyStroke { keycode: CMD_KEYCODE, down: true, flags: CMD_MASK });
    keys.push(KeyStroke { keycode: V_KEYCODE, down: true, flags: CMD_MASK });
    keys.push(KeyStroke { keycode: V_KEYCODE, down: false, flags: CMD_MASK });
    keys.push(KeyStroke { keycode: CMD_KEYCODE, down: false, flags: 0 });
    assert(keys@ =~= chord());
    keys
}

/// Plans the paste of `slot_text`, given the clipboard text captured as
/// backup just before.
pub fn paste_from_slot(slot_text: &str, backup: Option<String>) -> (plan: PastePlan)
    ensures
        plan.write@ == slot_text@,
        plan.keys@ == chord(),
        text_view(plan.restore) == text_view(backup),
        plan.restore_delay_ms == RESTORE_DELAY_MS,
{
    PastePlan {
        write: slot_text.to_owned(),
        keys: post_cmd_v_realistic(),
        restore: backup,
        restore_delay_ms: RESTORE_DELAY_MS,
    }
}

} // verus!
