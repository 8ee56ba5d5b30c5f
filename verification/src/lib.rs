//! Slotpaste core: six clipboard slots driven by global hotkeys and a
//! transient chooser.
//!
//! The crate holds the decisions of the trigger-to-action pipeline as plain
//! functions with contracts. Everything that touches the operating system
//! lives with the caller, which feeds events in and carries the returned
//! effects out.
//!
//! - `keys`: slot identifiers and the keycode table.
//! - `event_tap`: the capture tap's swallow policy.
//! - `state_machine`: the token-guarded mode machine; `invariants` states
//!   what holds of it over whole runs.
//! - `storage`, `persistence`: the slot store and what its durable table
//!   needs computed.
//! - `ipc`, `surface`: the two sides of the chooser wire format; `json` is
//!   the JSON reader behind both.
//! - `clipboard`, `paste`: the clipboard bridge's decisions.
//! - `text`, `decimal`, `log_text`: text helpers.

pub mod clipboard;
pub mod decimal;
pub mod event_tap;
pub mod invariants;
pub mod ipc;
pub mod json;
pub mod keys;
pub mod log_text;
pub mod paste;
pub mod persistence;
pub mod state_machine;
pub mod storage;
pub mod surface;
pub mod text;
