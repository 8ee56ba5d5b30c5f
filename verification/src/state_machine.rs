//! The mode state machine: Idle, or one chooser awaiting its resolution.
//!
//! The machine is a function from state and event to next state and
//! effects. It never waits and never touches the outside world: the caller
//! performs the effects it returns. Every armed chooser carries a fresh
//! token, and a reply or timeout is acted on only if it carries the token
//! of the chooser that is open.

use crate::decimal::{decimal, to_decimal};
use crate::keys::{Key, SlotId};
use crate::storage::{empty_at, SlotStorage, SlotWrite};
use crate::text::{str_eq, text_view};
use vstd::prelude::*;

verus! {

/// Published mode: no chooser is open.
pub const MODE_IDLE: u8 = 0;

/// Published mode: a save chooser awaits its resolution.
pub const MODE_SAVE_PENDING: u8 = 1;

/// Published mode: a paste chooser awaits its resolution.
pub const MODE_PASTE_ACTIVE: u8 = 2;

/// Modifier flag of the command key.
pub const CMD_MASK: u64 = 0x10_0000;

/// How long a chooser stays open, in milliseconds.
pub const CHOOSER_WINDOW_MS: u64 = 800;

/// How long a save waits for the clipboard to settle, in milliseconds.
pub const CLIPBOARD_WAIT_MS: u64 = 300;

/// What a chooser is opened for.
#[derive(Debug, Clone, Copy, PartialEq, Eq, Structural)]
pub enum ChooserMode {
    Save,
    Paste,
}

/// Events from the capture gate, the chooser transport and the timers.
#[derive(Debug, Clone, PartialEq, Eq)]
pub enum Event {
    KeyDown(Key, u64),
    KeyUp(Key, u64),
    FlagsChanged(u64),
    /// The save hotkey was swallowed in Idle.
    CmdCTrigger,
    /// The paste hotkey was swallowed in Idle.
    CmdVTrigger,
    /// The chooser reports the slot the user picked.
    ChooserChosen { token: String, slot_num: u8 },
    /// The chooser reports that it closed without a pick.
    ChooserCancel { token: String, reason: String },
    /// The deadline armed with this token has passed.
    Timeout(u64),
    Quit,
}

/// An event with its texts as character sequences.
pub enum EventView {
    KeyDown(Key, u64),
    KeyUp(Key, u64),
    FlagsChanged(u64),
    CmdCTrigger,
    CmdVTrigger,
    ChooserChosen { token: Seq<char>, slot_num: u8 },
    ChooserCancel { token: Seq<char>, reason: Seq<char> },
    Timeout(u64),
    Quit,
}

impl View for Event {
    type V = EventView;

    open spec fn view(&self) -> EventView {
        match *self {
            Event::KeyDown(key, flags) => EventView::KeyDown(key, flags),
            Event::KeyUp(key, flags) => EventView::KeyUp(key, flags),
            Event::FlagsChanged(flags) => EventView::FlagsChanged(flags),
            Event::CmdCTrigger => EventView::CmdCTrigger,
            Event::CmdVTrigger => EventView::CmdVTrigger,
            Event::ChooserChosen { token, slot_num } => EventView::ChooserChosen {
                token: token@,
                slot_num,
            },
            Event::ChooserCancel { token, reason } => EventView::ChooserCancel {
                token: token@,
                reason: reason@,
            },
            Event::Timeout(token) => EventView::Timeout(token),
            Event::Quit => EventView::Quit,
        }
    }
}

/// The logical mode. A chooser state carries the token that its replies
/// must carry and the instant at which its timeout fires.
#[derive(Debug, Clone, Copy, PartialEq, Eq, Structural)]
pub enum State {
    Idle,
    SaveChooserPending { deadline: u64, token: u64 },
    PasteChooserActive { deadline: u64, token: u64 },
}

/// A message for the chooser surface.
#[derive(Debug, Clone, Copy, PartialEq, Eq, Structural)]
pub enum Outbound {
    Show { mode: ChooserMode, token: u64, timeout_ms: u64 },
    Hide { token: u64 },
}

/// A one-shot timeout to arm: at `deadline`, enqueue `Timeout(token)`.
#[derive(Debug, Clone, Copy, PartialEq, Eq, Structural)]
pub struct Timer {
    pub deadline: u64,
    pub token: u64,
}

/// What a transition amounted to, for the log.
#[derive(Debug, Clone, Copy, PartialEq, Eq, Structural)]
pub enum Outcome {
    /// No transition.
    Ignored,
    /// A chooser was opened.
    Armed(ChooserMode),
    /// The clipboard text went into the slot.
    Saved(SlotId),
    /// A slot was picked for saving, but the clipboard held no text.
    NothingToSave,
    /// The slot's text is handed out for pasting.
    Pasted(SlotId),
    /// A slot was picked for pasting, but it is empty.
    SlotEmpty(SlotId),
    /// The chooser reported a cancel.
    Cancelled,
    /// The chooser's deadline passed.
    TimedOut,
    /// The machine was told to quit.
    Stopped,
}

/// What the caller has to carry out after a transition.
#[derive(Debug, Clone, PartialEq, Eq)]
pub struct Effects {
    /// The message to send to the chooser surface.
    pub message: Option<Outbound>,
    /// The timeout to arm.
    pub timer: Option<Timer>,
    /// The row to write through to durable storage.
    pub write: Option<SlotWrite>,
    /// The text to paste through the clipboard bridge.
    pub paste: Option<String>,
    /// Whether the event loop ends here.
    pub stop: bool,
    pub outcome: Outcome,
}

/// The row of an optional write as slot and text.
pub open spec fn write_view(write: Option<SlotWrite>) -> Option<(SlotId, Seq<char>)> {
    match write {
        Some(w) => Some((w.slot, w.content@)),
        None => None,
    }
}

/// Effects with their texts as character sequences.
pub struct EffectsView {
    pub message: Option<Outbound>,
    pub timer: Option<Timer>,
    pub write: Option<(SlotId, Seq<char>)>,
    pub paste: Option<Seq<char>>,
    pub stop: bool,
    pub outcome: Outcome,
}

impl View for Effects {
    type V = EffectsView;

    open spec fn view(&self) -> EffectsView {
        EffectsView {
            message: self.message,
            timer: self.timer,
            write: write_view(self.write),
            paste: text_view(self.paste),
            stop: self.stop,
            outcome: self.outcome,
        }
    }
}

/// The state machine with everything it owns.
#[derive(Debug)]
pub struct Machine {
    state: State,
    next_token: u64,
    cmd_down: bool,
    slots: SlotStorage,
}

/// The machine as a mathematical value.
pub struct MachineView {
    pub state: State,
    /// The token issued last; 0 before the first.
    pub next_token: u64,
    pub cmd_down: bool,
    pub slots: Map<SlotId, Seq<char>>,
    pub persistent: bool,
}

impl View for Machine {
    type V = MachineView;

    closed spec fn view(&self) -> MachineView {
        MachineView {
            state: self.state,
            next_token: self.next_token,
            cmd_down: self.cmd_down,
            slots: self.slots@,
            persistent: self.slots.persistent(),
        }
    }
}

/// The token of the chooser that is open, if one is.
pub open spec fn current_token(state: State) -> Option<u64> {
    match state {
        State::Idle => None,
        State::SaveChooserPending { token, .. } => Some(token),
        State::PasteChooserActive { token, .. } => Some(token),
    }
}

/// The token that an event carries, if it carries one: the text of a
/// chooser reply, or the decimal text of a timeout's number.
pub open spec fn carried_token(event: EventView) -> Option<Seq<char>> {
    match event {
        EventView::ChooserChosen { token, .. } => Some(token),
        EventView::ChooserCancel { token, .. } => Some(token),
        EventView::Timeout(token) => Some(decimal(token as nat)),
        _ => None,
    }
}

/// Whether an event carries the token of the chooser that is open.
pub open spec fn is_current(state: State, event: EventView) -> bool {
    match (current_token(state), carried_token(event)) {
        (Some(token), Some(text)) => text == decimal(token as nat),
        _ => false,
    }
}

/// Whether an event opens a chooser in the given state.
pub open spec fn arms(state: State, event: EventView) -> bool {
    state is Idle && (event is CmdCTrigger || event is CmdVTrigger)
}

/// Whether the machine can take the event at the given instant: opening a
/// chooser needs one more token and a deadline that a `u64` can hold.
pub open spec fn admits(m: MachineView, event: EventView, now_ms: u64) -> bool {
    arms(m.state, event) ==> m.next_token < u64::MAX && now_ms + CHOOSER_WINDOW_MS <= u64::MAX
}

/// Effects of a transition that does nothing.
pub open spec fn no_effects() -> EffectsView {
    EffectsView {
        message: None,
        timer: None,
        write: None,
        paste: None,
        stop: false,
        outcome: Outcome::Ignored,
    }
}

/// Effects of closing the chooser `token`: one hide message and whatever
/// the resolution added.
pub open spec fn closing(
    token: u64,
    write: Option<(SlotId, Seq<char>)>,
    paste: Option<Seq<char>>,
    outcome: Outcome,
) -> EffectsView {
    EffectsView {
        message: Some(Outbound::Hide { token }),
        timer: None,
        write,
        paste,
        stop: false,
        outcome,
    }
}

/// Opening a chooser from Idle: the next token, a deadline one chooser
/// window from now, one show message and one timeout.
pub open spec fn arm(m: MachineView, mode: ChooserMode, now_ms: u64) -> (MachineView, EffectsView) {
    let token = (m.next_token + 1) as u64;
    let deadline = (now_ms + CHOOSER_WINDOW_MS) as u64;
    let state = match mode {
        ChooserMode::Save => State::SaveChooserPending { deadline, token },
        ChooserMode::Paste => State::PasteChooserActive { deadline, token },
    };
    (
        MachineView { state, next_token: token, ..m },
        EffectsView {
            message: Some(Outbound::Show { mode, token, timeout_ms: CHOOSER_WINDOW_MS }),
            timer: Some(Timer { deadline, token }),
            write: None,
            paste: None,
            stop: false,
            outcome: Outcome::Armed(mode),
        },
    )
}

/// A pick in a save chooser: the clipboard text, if there is one, goes
/// into the slot.
pub open spec fn resolve_save(
    m: MachineView,
    token: u64,
    slot: SlotId,
    clipboard: Option<Seq<char>>,
) -> (MachineView, EffectsView) {
    match clipboard {
        Some(text) => (
            MachineView { state: State::Idle, slots: m.slots.insert(slot, text), ..m },
            closing(
                token,
                if m.persistent {
                    Some((slot, text))
                } else {
                    None
                },
                None,
                Outcome::Saved(slot),
            ),
        ),
        None => (
            MachineView { state: State::Idle, ..m },
            closing(token, None, None, Outcome::NothingToSave),
        ),
    }
}

/// A pick in a paste chooser: the slot's text, unless the slot is empty,
/// is handed out for pasting.
pub open spec fn resolve_paste(m: MachineView, token: u64, slot: SlotId) -> (
    MachineView,
    EffectsView,
) {
    (
        MachineView { state: State::Idle, ..m },
        if empty_at(m.slots, slot) {
            closing(token, None, None, Outcome::SlotEmpty(slot))
        } else {
            closing(token, None, Some(m.slots[slot]), Outcome::Pasted(slot))
        },
    )
}

/// The transition function. Events without a listed transition, replies
/// and timeouts that do not carry the current token, and picks of a slot
/// number outside 1 to 6 leave everything as it is.
pub open spec fn step_spec(
    m: MachineView,
    event: EventView,
    now_ms: u64,
    clipboard: Option<Seq<char>>,
) -> (MachineView, EffectsView) {
    match event {
        EventView::Quit => (m, EffectsView { stop: true, outcome: Outcome::Stopped, ..no_effects() }),
        EventView::FlagsChanged(flags) => (
            MachineView { cmd_down: (flags & CMD_MASK) != 0, ..m },
            no_effects(),
        ),
        EventView::CmdCTrigger => if m.state is Idle {
            arm(m, ChooserMode::Save, now_ms)
        } else {
            (m, no_effects())
        },
        EventView::CmdVTrigger => if m.state is Idle {
            arm(m, ChooserMode::Paste, now_ms)
        } else {
            (m, no_effects())
        },
        EventView::ChooserChosen { token, slot_num } => match (
            m.state,
            SlotId::from_number_spec(slot_num as int),
        ) {
            (State::SaveChooserPending { token: current, .. }, Some(slot)) => if is_current(
                m.state,
                event,
            ) {
                resolve_save(m, current, slot, clipboard)
            } else {
                (m, no_effects())
            },
            (State::PasteChooserActive { token: current, .. }, Some(slot)) => if is_current(
                m.state,
                event,
            ) {
                resolve_paste(m, current, slot)
            } else {
                (m, no_effects())
            },
            _ => (m, no_effects()),
        },
        EventView::ChooserCancel { .. } => match current_token(m.state) {
            Some(current) => if is_current(m.state, event) {
                (
                    MachineView { state: State::Idle, ..m },
                    closing(current, None, None, Outcome::Cancelled),
                )
            } else {
                (m, no_effects())
            },
            None => (m, no_effects()),
        },
        EventView::Timeout(_) => match current_token(m.state) {
            Some(current) => if is_current(m.state, event) {
                (
                    MachineView { state: State::Idle, ..m },
                    closing(current, None, None, Outcome::TimedOut),
                )
            } else {
                (m, no_effects())
            },
            None => (m, no_effects()),
        },
        EventView::KeyDown(_, _) => (m, no_effects()),
        EventView::KeyUp(_, _) => (m, no_effects()),
    }
}

/// Whether the clipboard has to be read before the event is handed to the
/// machine: only for a pick that resolves the open save chooser.
pub open spec fn wants_clipboard(m: MachineView, event: EventView) -> bool {
    &&& m.state is SaveChooserPending
    &&& event matches EventView::ChooserChosen { slot_num, .. }
    &&& 1 <= slot_num <= 6
    &&& is_current(m.state, event)
}

impl ChooserMode {
    /// The word for the mode in a show message.
    pub open spec fn label_spec(self) -> Seq<char> {
        match self {
            ChooserMode::Save => "save"@,
            ChooserMode::Paste => "paste"@,
        }
    }

    /// The word for the mode in a show message.
    pub fn label(self) -> (s: &'static str)
        ensures
            s@ == self.label_spec(),
    {
        match self {
            ChooserMode::Save => "save",
            ChooserMode::Paste => "paste",
        }
    }
}

impl State {
    /// The mode to publish to the capture gate.
    pub open spec fn mode_spec(self) -> u8 {
        match self {
            State::Idle => MODE_IDLE,
            State::SaveChooserPending { .. } => MODE_SAVE_PENDING,
            State::PasteChooserActive { .. } => MODE_PASTE_ACTIVE,
        }
    }

    /// The mode to publish to the capture gate.
    pub fn mode(&self) -> (m: u8)
        ensures
            m == self.mode_spec(),
    {
        match self {
            State::Idle => MODE_IDLE,
            State::SaveChooserPending { .. } => MODE_SAVE_PENDING,
            State::PasteChooserActive { .. } => MODE_PASTE_ACTIVE,
        }
    }
}

/// Whether `text` is the decimal text of `token`.
fn token_matches(text: &str, token: u64) -> (same: bool)
    ensures
        same == (text@ == decimal(token as nat)),
{
    let current: String = to_decimal(token);
    str_eq(text, current.as_str())
}

fn quiet(outcome: Outcome) -> (effects: Effects)
    ensures
        effects@ == (EffectsView { outcome, ..no_effects() }),
{
    Effects { message: None, timer: None, write: None, paste: None, stop: false, outcome }
}

fn close(token: u64, write: Option<SlotWrite>, paste: Option<String>, outcome: Outcome) -> (effects:
    Effects)
    ensures
        effects@ == closing(
            token,
            write_view(write),
            text_view(paste),
            outcome,
        ),
{
    Effects {
        message: Some(Outbound::Hide { token }),
        timer: None,
        write,
        paste,
        stop: false,
        outcome,
    }
}

impl Machine {
    /// A machine in Idle that has issued no token and owns `slots`.
    pub fn new(slots: SlotStorage) -> (machine: Self)
        ensures
            machine@ == (MachineView {
                state: State::Idle,
                next_token: 0,
                cmd_down: false,
                slots: slots@,
                persistent: slots.persistent(),
            }),
    {
        Machine { state: State::Idle, next_token: 0, cmd_down: false, slots }
    }

    /// The current state.
    pub fn state(&self) -> (state: State)
        ensures
            state == self@.state,
    {
        self.state
    }

    /// The mode to publish to the capture gate.
    pub fn mode(&self) -> (m: u8)
        ensures
            m == self@.state.mode_spec(),
    {
        self.state.mode()
    }

    /// Whether the command key is held, as far as the events told.
    pub fn cmd_down(&self) -> (down: bool)
        ensures
            down == self@.cmd_down,
    {
        self.cmd_down
    }

    /// The slot store.
    pub fn slots(&self) -> (slots: &SlotStorage)
        ensures
            slots@ == self@.slots,
            slots.persistent() == self@.persistent,
    {
        &self.slots
    }

    /// Whether `step` can take the event at the given instant.
    pub fn admits_event(&self, event: &Event, now_ms: u64) -> (ok: bool)
        ensures
            ok == admits(self@, event@, now_ms),
    {
        match (self.state, event) {
            (State::Idle, Event::CmdCTrigger) | (State::Idle, Event::CmdVTrigger) => {
                self.next_token < u64::MAX && now_ms <= u64::MAX - CHOOSER_WINDOW_MS
            },
            _ => true,
        }
    }

    /// Whether the caller has to read the clipboard before it hands the
    /// event to `step`.
    pub fn needs_clipboard(&self, event: &Event) -> (needed: bool)
        ensures
            needed == wants_clipboard(self@, event@),
    {
        match (self.state, event) {
            (State::SaveChooserPending { token: current, .. }, Event::ChooserChosen { token, slot_num }) => {
                1 <= *slot_num && *slot_num <= 6 && token_matches(token.as_str(), current)
            },
            _ => false,
        }
    }

    /// Takes one event. `now_ms` is the instant of the call and `clipboard`
    /// the text read from the clipboard, if the event needed it and there
    /// was any.
    pub fn step(&mut self, event: Event, now_ms: u64, clipboard: Option<String>) -> (effects:
        Effects)
        requires
            admits(old(self)@, event@, now_ms),
        ensures
            (final(self)@, effects@) == step_spec(
                old(self)@,
                event@,
                now_ms,
                text_view(clipboard),
            ),
    {
        match event {
            Event::Quit => Effects {
                message: None,
                timer: None,
                write: None,
                paste: None,
                stop: true,
                outcome: Outcome::Stopped,
            },
            Event::FlagsChanged(flags) => {
                self.cmd_down = (flags & CMD_MASK) != 0;
                quiet(Outcome::Ignored)
            },
            Event::CmdCTrigger => self.handle_idle(ChooserMode::Save, now_ms),
            Event::CmdVTrigger => self.handle_idle(ChooserMode::Paste, now_ms),
            Event::ChooserChosen { token, slot_num } => {
                match (self.state, SlotId::from_number(slot_num)) {
                    (State::SaveChooserPending { token: current, .. }, Some(slot)) => {
                        if token_matches(token.as_str(), current) {
                            self.handle_save_pending(current, slot, clipboard)
                        } else {
                            quiet(Outcome::Ignored)
                        }
                    },
                    (State::PasteChooserActive { token: current, .. }, Some(slot)) => {
                        if token_matches(token.as_str(), current) {
                            self.handle_paste_active(current, slot)
                        } else {
                            quiet(Outcome::Ignored)
                        }
                    },
                    _ => quiet(Outcome::Ignored),
                }
            },
            Event::ChooserCancel { token, reason: _ } => {
                match self.open_token() {
                    Some(current) => {
                        if token_matches(token.as_str(), current) {
                            self.state = State::Idle;
                            close(current, None, None, Outcome::Cancelled)
                        } else {
                            quiet(Outcome::Ignored)
                        }
                    },
                    None => quiet(Outcome::Ignored),
                }
            },
            Event::Timeout(token) => {
                match self.open_token() {
                    Some(current) => {
                        if token == current {
                            self.state = State::Idle;
                            close(current, None, None, Outcome::TimedOut)
                        } else {
                            proof {
                                if decimal(token as nat) == decimal(current as nat) {
                                    crate::decimal::lemma_decimal_injective(
                                        token as nat,
                                        current as nat,
                                    );
                                }
                            }
                            quiet(Outcome::Ignored)
                        }
                    },
                    None => quiet(Outcome::Ignored),
                }
            },
            Event::KeyDown(_, _) => quiet(Outcome::Ignored),
            Event::KeyUp(_, _) => quiet(Outcome::Ignored),
        }
    }

    fn open_token(&self) -> (token: Option<u64>)
        ensures
            token == current_token(self@.state),
    {
        match self.state {
            State::Idle => None,
            State::SaveChooserPending { token, .. } => Some(token),
            State::PasteChooserActive { token, .. } => Some(token),
        }
    }

    /// A hotkey trigger: opens a chooser if none is open.
    fn handle_idle(&mut self, mode: ChooserMode, now_ms: u64) -> (effects: Effects)
        requires
            old(self)@.state is Idle ==> old(self)@.next_token < u64::MAX && now_ms
                + CHOOSER_WINDOW_MS <= u64::MAX,
        ensures
            (final(self)@, effects@) == if old(self)@.state is Idle {
                arm(old(self)@, mode, now_ms)
            } else {
                (old(self)@, no_effects())
            },
    {
        match self.state {
            State::Idle => {
                self.next_token = self.next_token + 1;
                let token: u64 = self.next_token;
                let deadline: u64 = now_ms + CHOOSER_WINDOW_MS;
                self.state = match mode {
                    ChooserMode::Save => State::SaveChooserPending { deadline, token },
                    ChooserMode::Paste => State::PasteChooserActive { deadline, token },
                };
                Effects {
                    message: Some(Outbound::Show { mode, token, timeout_ms: CHOOSER_WINDOW_MS }),
                    timer: Some(Timer { deadline, token }),
                    write: None,
                    paste: None,
                    stop: false,
                    outcome: Outcome::Armed(mode),
                }
            },
            _ => quiet(Outcome::Ignored),
        }
    }

    /// A pick that resolves the open save chooser.
    fn handle_save_pending(&mut self, token: u64, slot: SlotId, clipboard: Option<String>) -> (effects:
        Effects)
        ensures
            (final(self)@, effects@) == resolve_save(
                old(self)@,
                token,
                slot,
                text_view(clipboard),
            ),
    {
        self.state = State::Idle;
        match clipboard {
            Some(text) => {
                let write: Option<SlotWrite> = self.slots.save(slot, text);
                close(token, write, None, Outcome::Saved(slot))
            },
            None => close(token, None, None, Outcome::NothingToSave),
        }
    }

    /// A pick that resolves the open paste chooser.
    fn handle_paste_active(&mut self, token: u64, slot: SlotId) -> (effects: Effects)
        ensures
            (final(self)@, effects@) == resolve_paste(old(self)@, token, slot),
    {
        self.state = State::Idle;
        match self.slots.get(slot) {
            Some(text) => {
                if text.is_empty() {
                    close(token, None, None, Outcome::SlotEmpty(slot))
                } else {
                    let content: String = text.to_owned();
                    close(token, None, Some(content), Outcome::Pasted(slot))
                }
            },
            None => close(token, None, None, Outcome::SlotEmpty(slot)),
        }
    }
}

} // verus!
