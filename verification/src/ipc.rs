//! The agent's side of the chooser wire format: show and hide messages out,
//! chosen and cancel replies in. One message is one JSON object on one line.

use crate::decimal::{decimal, to_decimal};
use crate::json::{lookup, parsed, text_member, unsigned_member};
use crate::state_machine::{Event, EventView, Outbound};
use crate::text::{lines, lines_of, str_eq, text_view, trim, trimmed, views};
use vstd::prelude::*;
use vstd::utf8::{decode_utf8, valid_utf8};

verus! {

/// Port on which the chooser surface listens.
pub const UI_PORT: u16 = 45454;

/// Port on which the agent listens for replies.
pub const AGENT_PORT: u16 = 45455;

/// The text of a show message. Mode and token are written as they are,
/// without escaping.
pub open spec fn show_text(mode: Seq<char>, token: Seq<char>, timeout_ms: u64) -> Seq<char> {
    "{\"type\":\"show\",\"mode\":\""@ + mode + "\",\"token\":\""@ + token
        + "\",\"timeout_ms\":"@ + decimal(timeout_ms as nat) + ",\"anchor\":\"mouse\"}"@
}

/// The text of a hide message.
pub open spec fn hide_text(token: Seq<char>) -> Seq<char> {
    "{\"type\":\"hide\",\"token\":\""@ + token + "\"}"@
}

/// The text of an outbound message, with its token in decimal.
pub open spec fn outbound_text(message: Outbound) -> Seq<char> {
    match message {
        Outbound::Show { mode, token, timeout_ms } => show_text(
            mode.label_spec(),
            decimal(token as nat),
            timeout_ms,
        ),
        Outbound::Hide { token } => hide_text(decimal(token as nat)),
    }
}

/// The reply that an object with the given members stands for. `type` and
/// `token` must be strings. A `chosen` needs a `slot` from 1 to 6; a
/// `cancel` takes `timeout` for a missing `reason`; any other type is no
/// reply.
pub open spec fn response_of(
    typ: Option<Seq<char>>,
    token: Option<Seq<char>>,
    slot: Option<u64>,
    reason: Option<Seq<char>>,
) -> Option<EventView> {
    if typ is None || token is None {
        None
    } else if typ->0 == "chosen"@ {
        match slot {
            Some(n) => if 1 <= n <= 6 {
                Some(EventView::ChooserChosen { token: token->0, slot_num: n as u8 })
            } else {
                None
            },
            None => None,
        }
    } else if typ->0 == "cancel"@ {
        Some(
            EventView::ChooserCancel {
                token: token->0,
                reason: match reason {
                    Some(r) => r,
                    None => "timeout"@,
                },
            },
        )
    } else {
        None
    }
}

/// The reply that a line stands for: that of its members, if the line is a
/// JSON document at all.
pub open spec fn response_of_line(line: Seq<char>) -> Option<EventView> {
    match parsed(line) {
        Some(doc) => response_of(
            lookup(doc.texts, "type"@),
            lookup(doc.texts, "token"@),
            lookup(doc.numbers, "slot"@),
            lookup(doc.texts, "reason"@),
        ),
        None => None,
    }
}

/// The replies among some lines, in order; lines that are no reply are
/// dropped.
pub open spec fn responses_of(lines: Seq<Seq<char>>) -> Seq<EventView>
    decreases lines.len(),
{
    if lines.len() == 0 {
        Seq::empty()
    } else {
        match response_of_line(lines.last()) {
            Some(event) => responses_of(lines.drop_last()).push(event),
            None => responses_of(lines.drop_last()),
        }
    }
}

/// The replies in a datagram: none if it is not UTF-8, else those of the
/// lines of its trimmed text.
pub open spec fn datagram_responses(bytes: Seq<u8>) -> Seq<EventView> {
    if valid_utf8(bytes) {
        responses_of(lines_of(trimmed(decode_utf8(bytes))))
    } else {
        Seq::empty()
    }
}

/// Events as mathematical values.
pub open spec fn event_views(events: Seq<Event>) -> Seq<EventView> {
    Seq::new(events.len(), |i: int| events[i]@)
}

/// An optional event as a mathematical value.
pub open spec fn event_view(event: Option<Event>) -> Option<EventView> {
    match event {
        Some(e) => Some(e@),
        None => None,
    }
}

/// A chosen reply made of a token and a slot number from 1 to 6 reads back
/// as that token and number.
pub proof fn lemma_chosen_fields_round_trip(
    token: Seq<char>,
    slot: u8,
    reason: Option<Seq<char>>,
)
    requires
        1 <= slot <= 6,
    ensures
        response_of(Some("chosen"@), Some(token), Some(slot as u64), reason) == Some(
            EventView::ChooserChosen { token, slot_num: slot },
        ),
{
}

/// A cancel reply made of a token and a reason reads back as those; one
/// without a reason reads back with the reason `timeout`.
pub proof fn lemma_cancel_fields_round_trip(
    token: Seq<char>,
    slot: Option<u64>,
    reason: Seq<char>,
)
    ensures
        response_of(Some("cancel"@), Some(token), slot, Some(reason)) == Some(
            EventView::ChooserCancel { token, reason },
        ),
        response_of(Some("cancel"@), Some(token), slot, None) == Some(
            EventView::ChooserCancel { token, reason: "timeout"@ },
        ),
{
    reveal_strlit("cancel");
    reveal_strlit("chosen");
    assert("cancel"@[1] != "chosen"@[1]);
}

/// Every reply that is decoded carries a token, and a chosen reply names a
/// slot: numbers outside 1 to 6 never get past the decoder.
pub proof fn lemma_response_shape(
    typ: Option<Seq<char>>,
    token: Option<Seq<char>>,
    slot: Option<u64>,
    reason: Option<Seq<char>>,
)
    ensures
        response_of(typ, token, slot, reason) matches Some(event) ==> {
            &&& token is Some
            &&& crate::state_machine::carried_token(event) == token
            &&& event matches EventView::ChooserChosen { slot_num, .. } ==> slot == Some(
                slot_num as u64,
            ) && crate::keys::SlotId::from_number_spec(slot_num as int) is Some
        },
{
}

/// Builds the show message for the chooser surface.
pub fn show_message(mode: &str, token: &str, timeout_ms: u64) -> (msg: String)
    ensures
        msg@ == show_text(mode@, token@, timeout_ms),
{
    let mut msg: String = "{\"type\":\"show\",\"mode\":\"".to_owned();
    msg.append(mode);
    msg.append("\",\"token\":\"");
    msg.append(token);
    msg.append("\",\"timeout_ms\":");
    let timeout: String = to_decimal(timeout_ms);
    msg.append(timeout.as_str());
    msg.append(",\"anchor\":\"mouse\"}");
    msg
}

/// Builds the hide message for the chooser surface.
pub fn hide_message(token: &str) -> (msg: String)
    ensures
        msg@ == hide_text(token@),
{
    let mut msg: String = "{\"type\":\"hide\",\"token\":\"".to_owned();
    msg.append(token);
    msg.append("\"}");
    msg
}

/// Builds the wire text of an outbound message.
pub fn encode(message: &Outbound) -> (msg: String)
    ensures
        msg@ == outbound_text(*message),
{
    match message {
        Outbound::Show { mode, token, timeout_ms } => {
            let token_text: String = to_decimal(*token);
            show_message(mode.label(), token_text.as_str(), *timeout_ms)
        },
        Outbound::Hide { token } => {
            let token_text: String = to_decimal(*token);
            hide_message(token_text.as_str())
        },
    }
}

/// Turns the members read from a reply object into an event.
pub fn response_from_fields(
    typ: Option<String>,
    token: Option<String>,
    slot: Option<u64>,
    reason: Option<String>,
) -> (event: Option<Event>)
    ensures
        event_view(event) == response_of(
            text_view(typ),
            text_view(token),
            slot,
            text_view(reason),
        ),
{
    let typ: String = match typ {
        Some(t) => t,
        None => {
            return None;
        },
    };
    let token: String = match token {
        Some(t) => t,
        None => {
            return None;
        },
    };
    if str_eq(typ.as_str(), "chosen") {
        match slot {
            Some(n) => {
                if 1 <= n && n <= 6 {
                    Some(Event::ChooserChosen { token, slot_num: n as u8 })
                } else {
                    None
                }
            },
            None => None,
        }
    } else if str_eq(typ.as_str(), "cancel") {
        let reason: String = match reason {
            Some(r) => r,
            None => "timeout".to_owned(),
        };
        Some(Event::ChooserCancel { token, reason })
    } else {
        None
    }
}

/// Decodes one line from the chooser surface. Lines that are not JSON,
/// lack a required member or name a slot outside 1 to 6 are no reply.
pub fn parse_response(line: &str) -> (event: Option<Event>)
    ensures
        event_view(event) == response_of_line(line@),
{
    match crate::json::parse(line) {
        Ok(v) => {
            let typ: Option<String> = text_member(&v, "type");
            let token: Option<String> = text_member(&v, "token");
            let slot: Option<u64> = unsigned_member(&v, "slot");
            let reason: Option<String> = text_member(&v, "reason");
            response_from_fields(typ, token, slot, reason)
        },
        Err(_) => None,
    }
}

/// Decodes a datagram from the chooser surface into the replies it holds.
pub fn decode_datagram(bytes: &[u8]) -> (events: Vec<Event>)
    ensures
        event_views(events@) == datagram_responses(bytes@),
{
    let mut events: Vec<Event> = Vec::new();
    match core::str::from_utf8(bytes) {
        Ok(s) => {
            proof {
                vstd::utf8::encode_utf8_decode_utf8(s@);
            }
            let text: String = trim(s);
            let all: Vec<String> = lines(text.as_str());
            let mut i: usize = 0;
            assert(views(all@).take(0) =~= Seq::<Seq<char>>::empty());
            assert(event_views(events@) =~= Seq::<EventView>::empty());
            while i < all.len()
                invariant
                    i <= all.len(),
                    event_views(events@) == responses_of(views(all@).take(i as int)),
                decreases all.len() - i,
            {
                let ghost before = event_views(events@);
                assert(views(all@).take(i + 1).drop_last() =~= views(all@).take(i as int));
                assert(views(all@).take(i + 1).last() == all@[i as int]@);
                match parse_response(all[i].as_str()) {
                    Some(event) => {
                        events.push(event);
                        assert(event_views(events@) =~= before.push(event@));
                    },
                    None => {},
                }
                i = i + 1;
            }
            assert(views(all@).take(i as int) =~= views(all@));
            events
        },
        Err(_) => {
            assert(event_views(events@) =~= Seq::<EventView>::empty());
            events
        },
    }
}

} // verus!
