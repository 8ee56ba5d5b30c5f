//! The chooser surface's side of the wire format: show and hide commands
//! in, chosen and cancel replies out, and the token guard that makes a
//! repeated hide harmless.

use crate::decimal::{decimal, to_decimal};
use crate::json::{lookup, parsed, text_member, unsigned_member};
use crate::text::{str_eq, text_view, trim, trimmed};
use vstd::prelude::*;
use vstd::utf8::{decode_utf8, valid_utf8};

verus! {

/// An instruction from the agent.
#[derive(Debug, Clone, PartialEq, Eq)]
pub enum Command {
    Show { mode: String, token: String, timeout_ms: u64 },
    Hide { token: String },
}

/// A command as a mathematical value.
pub enum CommandView {
    Show { mode: Seq<char>, token: Seq<char>, timeout_ms: u64 },
    Hide { token: Seq<char> },
}

impl View for Command {
    type V = CommandView;

    open spec fn view(&self) -> CommandView {
        match *self {
            Command::Show { mode, token, timeout_ms } => CommandView::Show {
                mode: mode@,
                token: token@,
                timeout_ms,
            },
            Command::Hide { token } => CommandView::Hide { token: token@ },
        }
    }
}

/// What the surface does with its window after a command.
#[derive(Debug, Clone, Copy, PartialEq, Eq, Structural)]
pub enum WindowAction {
    /// Bring the chooser up.
    Show,
    /// Take the chooser down.
    Hide,
    /// Leave the window as it is.
    Nothing,
}

/// The surface's token guard: the token of the chooser on screen, if one
/// is.
#[derive(Debug)]
pub struct Surface {
    current: Option<String>,
}

impl View for Surface {
    type V = Option<Seq<char>>;

    closed spec fn view(&self) -> Option<Seq<char>> {
        text_view(self.current)
    }
}

/// An optional command as a mathematical value.
pub open spec fn command_view(command: Option<Command>) -> Option<CommandView> {
    match command {
        Some(c) => Some(c@),
        None => None,
    }
}

/// The command that an object with the given members stands for. A `show`
/// needs `mode` and `token` as strings and `timeout_ms` as an unsigned
/// integer; a `hide` needs `token`; any other type is no command.
pub open spec fn command_of(
    typ: Option<Seq<char>>,
    mode: Option<Seq<char>>,
    token: Option<Seq<char>>,
    timeout_ms: Option<u64>,
) -> Option<CommandView> {
    if typ == Some("show"@) {
        if mode is Some && token is Some && timeout_ms is Some {
            Some(CommandView::Show { mode: mode->0, token: token->0, timeout_ms: timeout_ms->0 })
        } else {
            None
        }
    } else if typ == Some("hide"@) {
        if token is Some {
            Some(CommandView::Hide { token: token->0 })
        } else {
            None
        }
    } else {
        None
    }
}

/// The command that a text stands for: that of its members, if the text is
/// a JSON document at all.
pub open spec fn command_of_text(text: Seq<char>) -> Option<CommandView> {
    match parsed(text) {
        Some(doc) => command_of(
            lookup(doc.texts, "type"@),
            lookup(doc.texts, "mode"@),
            lookup(doc.texts, "token"@),
            lookup(doc.numbers, "timeout_ms"@),
        ),
        None => None,
    }
}

/// The command in a datagram: that of its trimmed text, if it is UTF-8.
pub open spec fn datagram_command(bytes: Seq<u8>) -> Option<CommandView> {
    if valid_utf8(bytes) {
        command_of_text(trimmed(decode_utf8(bytes)))
    } else {
        None
    }
}

/// The text of a chosen reply.
pub open spec fn chosen_text(token: Seq<char>, slot: u8) -> Seq<char> {
    "{\"type\":\"chosen\",\"token\":\""@ + token + "\",\"slot\":"@ + decimal(slot as nat) + "}"@
}

/// The text of a cancel reply.
pub open spec fn cancel_text(token: Seq<char>, reason: Seq<char>) -> Seq<char> {
    "{\"type\":\"cancel\",\"token\":\""@ + token + "\",\"reason\":\""@ + reason + "\"}"@
}

/// The guard after a command, and what happens to the window. A show
/// takes over the guard. A hide acts only if it names the chooser on
/// screen, and then clears the guard.
pub open spec fn applied(current: Option<Seq<char>>, command: CommandView) -> (
    Option<Seq<char>>,
    WindowAction,
) {
    match command {
        CommandView::Show { token, .. } => (Some(token), WindowAction::Show),
        CommandView::Hide { token } => if current == Some(token) {
            (None, WindowAction::Hide)
        } else {
            (current, WindowAction::Nothing)
        },
    }
}

/// A show message made of the given values reads back as those values.
pub proof fn lemma_show_fields_round_trip(mode: Seq<char>, token: Seq<char>, timeout_ms: u64)
    ensures
        command_of(Some("show"@), Some(mode), Some(token), Some(timeout_ms)) == Some(
            CommandView::Show { mode, token, timeout_ms },
        ),
{
}

/// A hide message made of a token reads back as that token.
pub proof fn lemma_hide_fields_round_trip(
    mode: Option<Seq<char>>,
    token: Seq<char>,
    timeout_ms: Option<u64>,
)
    ensures
        command_of(Some("hide"@), mode, Some(token), timeout_ms) == Some(
            CommandView::Hide { token },
        ),
{
    reveal_strlit("hide");
    reveal_strlit("show");
    assert("hide"@[0] != "show"@[0]);
}

/// Hiding is idempotent: after one hide of a token, a second hide of the
/// same token changes nothing and leaves the window alone.
pub proof fn lemma_hide_twice(current: Option<Seq<char>>, token: Seq<char>)
    ensures
        ({
            let once = applied(current, CommandView::Hide { token });
            applied(once.0, CommandView::Hide { token }) == (once.0, WindowAction::Nothing)
        }),
{
}

/// Turns the members read from a command object into a command.
pub fn command_from_fields(
    typ: Option<String>,
    mode: Option<String>,
    token: Option<String>,
    timeout_ms: Option<u64>,
) -> (command: Option<Command>)
    ensures
        command_view(command) == command_of(
            text_view(typ),
            text_view(mode),
            text_view(token),
            timeout_ms,
        ),
{
    let typ: String = match typ {
        Some(t) => t,
        None => {
            return None;
        },
    };
    if str_eq(typ.as_str(), "show") {
        match (mode, token, timeout_ms) {
            (Some(mode), Some(token), Some(timeout_ms)) => Some(
                Command::Show { mode, token, timeout_ms },
            ),
            _ => None,
        }
    } else if str_eq(typ.as_str(), "hide") {
        match token {
            Some(token) => Some(Command::Hide { token }),
            None => None,
        }
    } else {
        None
    }
}

/// Decodes one message from the agent. Texts that are not JSON or lack a
/// required member are no command.
pub fn parse_command(text: &str) -> (command: Option<Command>)
    ensures
        command_view(command) == command_of_text(text@),
{
    match crate::json::parse(text) {
        Ok(v) => {
            let typ: Option<String> = text_member(&v, "type");
            let mode: Option<String> = text_member(&v, "mode");
            let token: Option<String> = text_member(&v, "token");
            let timeout_ms: Option<u64> = unsigned_member(&v, "timeout_ms");
            command_from_fields(typ, mode, token, timeout_ms)
        },
        Err(_) => None,
    }
}

/// Decodes a datagram from the agent into the command it holds, if any.
pub fn decode_command(bytes: &[u8]) -> (command: Option<Command>)
    ensures
        command_view(command) == datagram_command(bytes@),
{
    match core::str::from_utf8(bytes) {
        Ok(s) => {
            proof {
                vstd::utf8::encode_utf8_decode_utf8(s@);
            }
            let text: String = trim(s);
            parse_command(text.as_str())
        },
        Err(_) => None,
    }
}

/// Builds the reply that reports the slot the user picked.
pub fn chosen_message(token: &str, slot: u8) -> (msg: String)
    ensures
        msg@ == chosen_text(token@, slot),
{
    let mut msg: String = "{\"type\":\"chosen\",\"token\":\"".to_owned();
    msg.append(token);
    msg.append("\",\"slot\":");
    let number: String = to_decimal(slot as u64);
    msg.append(number.as_str());
    msg.append("}");
    msg
}

/// Builds the reply that reports a chooser closed without a pick.
pub fn cancel_message(token: &str, reason: &str) -> (msg: String)
    ensures
        msg@ == cancel_text(token@, reason@),
{
    let mut msg: String = "{\"type\":\"cancel\",\"token\":\"".to_owned();
    msg.append(token);
    msg.append("\",\"reason\":\"");
    msg.append(reason);
    msg.append("\"}");
    msg
}

impl Surface {
    /// A surface with no chooser on screen.
    pub fn new() -> (surface: Self)
        ensures
            surface@ is None,
    {
        Surface { current: None }
    }

    /// The token of the chooser on screen, if one is.
    pub fn current_token(&self) -> (token: Option<&str>)
        ensures
            match token {
                Some(t) => self@ == Some(t@),
                None => self@ is None,
            },
    {
        match &self.current {
            Some(t) => Some(t.as_str()),
            None => None,
        }
    }

    /// Takes a command and says what to do with the window.
    pub fn apply(&mut self, command: &Command) -> (action: WindowAction)
        ensures
            (final(self)@, action) == applied(old(self)@, command@),
    {
        match command {
            Command::Show { token, .. } => {
                self.current = Some(token.clone());
                WindowAction::Show
            },
            Command::Hide { token } => {
                let named: bool = match &self.current {
                    Some(t) => str_eq(t.as_str(), token.as_str()),
                    None => false,
                };
                if named {
                    self.current = None;
                    WindowAction::Hide
                } else {
                    WindowAction::Nothing
                }
            },
        }
    }

    /// Forgets the chooser on screen, once its reply has been sent.
    pub fn resolve(&mut self)
        ensures
            final(self)@ is None,
    {
        self.current = None;
    }
}

} // verus!
