//! What holds of the state machine over whole runs: stale tokens never act,
//! tokens are never reused, and a resolution happens once.

use crate::decimal::{decimal, lemma_decimal_injective};
use crate::event_tap::{policy, TapEventKind};
use crate::state_machine::{
    admits,
    carried_token,
    current_token,
    is_current,
    no_effects,
    step_spec,
    wants_clipboard,
    EffectsView,
    EventView,
    MachineView,
    Outbound,
    Outcome,
};
use vstd::prelude::*;

verus! {

/// One call of the machine: the event, the instant, and the clipboard text
/// handed in with it.
pub struct Input {
    pub event: EventView,
    pub now_ms: u64,
    pub clipboard: Option<Seq<char>>,
}

/// The machine after taking some inputs in order.
pub open spec fn run_spec(m: MachineView, inputs: Seq<Input>) -> MachineView
    decreases inputs.len(),
{
    if inputs.len() == 0 {
        m
    } else {
        let last = inputs.last();
        step_spec(run_spec(m, inputs.drop_last()), last.event, last.now_ms, last.clipboard).0
    }
}

/// Whether every input of a run can be taken when its turn comes.
pub open spec fn admitted(m: MachineView, inputs: Seq<Input>) -> bool
    decreases inputs.len(),
{
    inputs.len() > 0 ==> admitted(m, inputs.drop_last()) && admits(
        run_spec(m, inputs.drop_last()),
        inputs.last().event,
        inputs.last().now_ms,
    )
}

/// Tokens in use were issued: the open chooser's token is at least 1 and
/// at most the token issued last.
pub open spec fn well_formed(m: MachineView) -> bool {
    current_token(m.state) matches Some(token) ==> 1 <= token <= m.next_token
}

/// An event whose token is not that of the open chooser causes no
/// transition and no effect, whether a reply or a timeout, and whether or
/// not a chooser is open.
pub proof fn lemma_stale_ignored(
    m: MachineView,
    event: EventView,
    now_ms: u64,
    clipboard: Option<Seq<char>>,
)
    requires
        carried_token(event) is Some,
        !is_current(m.state, event),
    ensures
        step_spec(m, event, now_ms, clipboard) == (m, no_effects()),
{
}

/// An event that carries the decimal text of any token but the current
/// one, an older token in particular, causes no transition and no effect.
pub proof fn lemma_other_token_ignored(
    m: MachineView,
    other: u64,
    event: EventView,
    now_ms: u64,
    clipboard: Option<Seq<char>>,
)
    requires
        carried_token(event) == Some(decimal(other as nat)),
        current_token(m.state) != Some(other),
    ensures
        step_spec(m, event, now_ms, clipboard) == (m, no_effects()),
{
    if let Some(current) = current_token(m.state) {
        if decimal(other as nat) == decimal(current as nat) {
            lemma_decimal_injective(other as nat, current as nat);
        }
    }
}

/// Any interleaving of replies and timeouts none of which carries the
/// current token leaves the machine exactly as it was.
pub proof fn lemma_stale_run(m: MachineView, inputs: Seq<Input>)
    requires
        forall|i: int|
            0 <= i < inputs.len() ==> carried_token(#[trigger] inputs[i].event) is Some
                && !is_current(m.state, inputs[i].event),
    ensures
        run_spec(m, inputs) == m,
    decreases inputs.len(),
{
    if inputs.len() > 0 {
        let before = inputs.drop_last();
        assert forall|i: int| 0 <= i < before.len() implies carried_token(
            #[trigger] before[i].event,
        ) is Some && !is_current(m.state, before[i].event) by {
            assert(before[i] == inputs[i]);
        }
        lemma_stale_run(m, before);
        let last = inputs.last();
        assert(last == inputs[inputs.len() - 1]);
        lemma_stale_ignored(m, last.event, last.now_ms, last.clipboard);
    }
}

/// A step keeps the machine well formed and never takes a token back. A
/// chooser opens only from Idle, and then under a token larger than every
/// token issued before; with a chooser open, a step either keeps it or
/// closes it.
pub proof fn lemma_step_tokens(
    m: MachineView,
    event: EventView,
    now_ms: u64,
    clipboard: Option<Seq<char>>,
)
    requires
        well_formed(m),
        admits(m, event, now_ms),
    ensures
        ({
            let after = step_spec(m, event, now_ms, clipboard).0;
            &&& well_formed(after)
            &&& after.next_token >= m.next_token
            &&& m.state is Idle && !(after.state is Idle) ==> current_token(after.state) == Some(
                (m.next_token + 1) as u64,
            ) && after.next_token == m.next_token + 1
            &&& !(m.state is Idle) ==> after.state == m.state || after.state is Idle
            &&& !(m.state is Idle) ==> after.next_token == m.next_token
        }),
{
}

/// A token that was issued and is not the current one never becomes
/// current again, whatever the machine is fed.
pub proof fn lemma_token_never_reused(m: MachineView, inputs: Seq<Input>, token: u64)
    requires
        well_formed(m),
        admitted(m, inputs),
        token <= m.next_token,
        current_token(m.state) != Some(token),
    ensures
        well_formed(run_spec(m, inputs)),
        token <= run_spec(m, inputs).next_token,
        current_token(run_spec(m, inputs).state) != Some(token),
    decreases inputs.len(),
{
    if inputs.len() > 0 {
        let before = inputs.drop_last();
        let last = inputs.last();
        lemma_token_never_reused(m, before, token);
        lemma_step_tokens(run_spec(m, before), last.event, last.now_ms, last.clipboard);
    }
}

/// Once a token is resolved, an event that carries it is ignored at any
/// later point of any run.
pub proof fn lemma_resolved_token_ignored(
    m: MachineView,
    inputs: Seq<Input>,
    token: u64,
    event: EventView,
    now_ms: u64,
    clipboard: Option<Seq<char>>,
)
    requires
        well_formed(m),
        admitted(m, inputs),
        token <= m.next_token,
        current_token(m.state) != Some(token),
        carried_token(event) == Some(decimal(token as nat)),
    ensures
        step_spec(run_spec(m, inputs), event, now_ms, clipboard) == (
            run_spec(m, inputs),
            no_effects(),
        ),
{
    lemma_token_never_reused(m, inputs, token);
    lemma_other_token_ignored(run_spec(m, inputs), token, event, now_ms, clipboard);
}

/// Receiving the same reply or timeout a second time causes no change
/// beyond the first: the second is ignored, whatever the first did.
pub proof fn lemma_second_delivery_ignored(
    m: MachineView,
    event: EventView,
    first_now_ms: u64,
    first_clipboard: Option<Seq<char>>,
    second_now_ms: u64,
    second_clipboard: Option<Seq<char>>,
)
    requires
        carried_token(event) is Some,
    ensures
        ({
            let once = step_spec(m, event, first_now_ms, first_clipboard).0;
            step_spec(once, event, second_now_ms, second_clipboard) == (once, no_effects())
        }),
{
}

/// However stale the mode that the capture tap read, what it forwards
/// cannot resolve a chooser: a forwarded event carries no token, leaves the
/// slots alone, hands out nothing to paste, and changes the state only by
/// opening a chooser from Idle.
pub proof fn lemma_forwarded_never_resolves(
    m: MachineView,
    kind: TapEventKind,
    keycode: i64,
    flags: u64,
    published: u8,
    now_ms: u64,
    clipboard: Option<Seq<char>>,
)
    ensures
        policy(kind, keycode, flags, published) matches Some((Some(event), _)) ==> {
            let (after, effects) = step_spec(m, event, now_ms, clipboard);
            &&& carried_token(event) is None
            &&& after.slots == m.slots
            &&& effects.paste is None
            &&& effects.write is None
            &&& hidden(effects) is None
            &&& after.state != m.state ==> m.state is Idle && (event is CmdCTrigger || event
                is CmdVTrigger)
        },
{
}

/// The token of the hide message among some effects, if there is one.
pub open spec fn hidden(effects: EffectsView) -> Option<u64> {
    match effects.message {
        Some(Outbound::Hide { token }) => Some(token),
        _ => None,
    }
}

/// The token of the show message among some effects, if there is one.
pub open spec fn shown(effects: EffectsView) -> Option<u64> {
    match effects.message {
        Some(Outbound::Show { token, .. }) => Some(token),
        _ => None,
    }
}

/// What a single transition can do. A hide is sent exactly when an open
/// chooser closes, and names its token; a show is sent exactly when a
/// chooser opens, names its token and comes with its timeout. The slot
/// store changes only by a save into the picked slot, text is handed out
/// for pasting only from a paste chooser and is never empty, and a row is
/// written through only by a save into a store with durable backing.
pub proof fn lemma_effects(
    m: MachineView,
    event: EventView,
    now_ms: u64,
    clipboard: Option<Seq<char>>,
)
    ensures
        ({
            let (after, effects) = step_spec(m, event, now_ms, clipboard);
            &&& hidden(effects) is Some <==> !(m.state is Idle) && after.state is Idle
            &&& hidden(effects) is Some ==> hidden(effects) == current_token(m.state)
            &&& shown(effects) is Some <==> m.state is Idle && !(after.state is Idle)
            &&& shown(effects) is Some ==> shown(effects) == current_token(after.state)
                && effects.timer is Some && Some(effects.timer->0.token) == shown(effects)
            &&& effects.message is None ==> after.state == m.state
            &&& after.slots != m.slots ==> effects.outcome is Saved && wants_clipboard(m, event)
            &&& effects.outcome matches Outcome::Saved(slot) ==> clipboard is Some && after.slots
                == m.slots.insert(slot, clipboard->0)
            &&& effects.write matches Some((slot, text)) ==> m.persistent && effects.outcome
                == Outcome::Saved(slot) && clipboard == Some(text)
            &&& effects.paste matches Some(text) ==> m.state is PasteChooserActive && text.len()
                > 0
            &&& effects.stop <==> event is Quit
            &&& after.persistent == m.persistent
        }),
{
}

} // verus!
