use slotpaste::ipc::{
    decode_datagram, encode, hide_message, parse_response, response_from_fields, show_message,
    AGENT_PORT, UI_PORT,
};
use slotpaste::state_machine::{ChooserMode, Event, Outbound};
use slotpaste::surface::{
    cancel_message, chosen_message, command_from_fields, decode_command, parse_command, Command,
    Surface, WindowAction,
};

fn chosen(token: &str, slot_num: u8) -> Event {
    Event::ChooserChosen { token: token.to_string(), slot_num }
}

fn cancel(token: &str, reason: &str) -> Event {
    Event::ChooserCancel { token: token.to_string(), reason: reason.to_string() }
}

fn show(mode: &str, token: &str, timeout_ms: u64) -> Command {
    Command::Show { mode: mode.to_string(), token: token.to_string(), timeout_ms }
}

fn text(s: &str) -> Option<String> {
    Some(s.to_string())
}

#[test]
fn ports() {
    assert_eq!(UI_PORT, 45454);
    assert_eq!(AGENT_PORT, 45455);
}

#[test]
fn show_message_text() {
    assert_eq!(
        show_message("save", "1", 800),
        "{\"type\":\"show\",\"mode\":\"save\",\"token\":\"1\",\"timeout_ms\":800,\"anchor\":\"mouse\"}"
    );
    assert_eq!(
        show_message("paste", "42", 0),
        "{\"type\":\"show\",\"mode\":\"paste\",\"token\":\"42\",\"timeout_ms\":0,\"anchor\":\"mouse\"}"
    );
}

#[test]
fn hide_message_text() {
    assert_eq!(hide_message("7"), "{\"type\":\"hide\",\"token\":\"7\"}");
    assert_eq!(hide_message(""), "{\"type\":\"hide\",\"token\":\"\"}");
}

#[test]
fn encode_outbound() {
    assert_eq!(
        encode(&Outbound::Show { mode: ChooserMode::Paste, token: 12, timeout_ms: 800 }),
        show_message("paste", "12", 800)
    );
    assert_eq!(
        encode(&Outbound::Show { mode: ChooserMode::Save, token: u64::MAX, timeout_ms: 800 }),
        show_message("save", "18446744073709551615", 800)
    );
    assert_eq!(encode(&Outbound::Hide { token: 3 }), hide_message("3"));
}

#[test]
fn chosen_and_cancel_message_text() {
    assert_eq!(chosen_message("5", 3), "{\"type\":\"chosen\",\"token\":\"5\",\"slot\":3}");
    assert_eq!(chosen_message("5", 255), "{\"type\":\"chosen\",\"token\":\"5\",\"slot\":255}");
    assert_eq!(
        cancel_message("5", "escape"),
        "{\"type\":\"cancel\",\"token\":\"5\",\"reason\":\"escape\"}"
    );
}

#[test]
fn show_round_trip_for_digit_tokens() {
    let tokens = ["0", "1", "9", "10", "007", "18446744073709551615", "1234567890123456789012345"];
    for mode in ["save", "paste"] {
        for token in tokens {
            for timeout_ms in [0u64, 1, 800, u64::MAX] {
                let sent = show_message(mode, token, timeout_ms);
                assert_eq!(parse_command(&sent), Some(show(mode, token, timeout_ms)));
                assert_eq!(decode_command(sent.as_bytes()), Some(show(mode, token, timeout_ms)));
            }
        }
    }
}

#[test]
fn show_round_trip_for_every_small_token() {
    for n in 0..500u64 {
        let sent = encode(&Outbound::Show { mode: ChooserMode::Save, token: n, timeout_ms: 800 });
        assert_eq!(parse_command(&sent), Some(show("save", &n.to_string(), 800)));
    }
}

#[test]
fn hide_round_trip() {
    for token in ["1", "22", "0009"] {
        assert_eq!(
            parse_command(&hide_message(token)),
            Some(Command::Hide { token: token.to_string() })
        );
    }
}

#[test]
fn chosen_round_trip() {
    for slot in 1..=6u8 {
        assert_eq!(parse_response(&chosen_message("31", slot)), Some(chosen("31", slot)));
    }
    assert_eq!(parse_response(&chosen_message("31", 0)), None);
    assert_eq!(parse_response(&chosen_message("31", 7)), None);
}

#[test]
fn cancel_round_trip() {
    assert_eq!(parse_response(&cancel_message("4", "escape")), Some(cancel("4", "escape")));
    assert_eq!(parse_response(&cancel_message("4", "")), Some(cancel("4", "")));
}

#[test]
fn parse_chosen() {
    assert_eq!(
        parse_response("{\"type\":\"chosen\",\"token\":\"1\",\"slot\":3}"),
        Some(chosen("1", 3))
    );
    assert_eq!(
        parse_response(" { \"slot\" : 6 , \"token\" : \"9\" , \"type\" : \"chosen\" } "),
        Some(chosen("9", 6))
    );
}

#[test]
fn parse_cancel_with_and_without_reason() {
    assert_eq!(
        parse_response("{\"type\":\"cancel\",\"token\":\"2\",\"reason\":\"blur\"}"),
        Some(cancel("2", "blur"))
    );
    assert_eq!(parse_response("{\"type\":\"cancel\",\"token\":\"2\"}"), Some(cancel("2", "timeout")));
    assert_eq!(
        parse_response("{\"type\":\"cancel\",\"token\":\"2\",\"reason\":5}"),
        Some(cancel("2", "timeout"))
    );
}

#[test]
fn parse_ignores_unknown_members() {
    assert_eq!(
        parse_response("{\"type\":\"chosen\",\"token\":\"1\",\"slot\":2,\"extra\":[1,2],\"reason\":\"x\"}"),
        Some(chosen("1", 2))
    );
}

#[test]
fn parse_unescapes_strings() {
    assert_eq!(
        parse_response("{\"type\":\"cancel\",\"token\":\"a\\\"b\",\"reason\":\"line\\nbreak\"}"),
        Some(cancel("a\"b", "line\nbreak"))
    );
    assert_eq!(
        parse_response("{\"type\":\"\\u0063ancel\",\"token\":\"1\"}"),
        Some(cancel("1", "timeout"))
    );
}

#[test]
fn parse_rejects_slot_out_of_range() {
    for slot in ["0", "7", "255", "256", "257", "262", "18446744073709551615", "-1", "1.0", "1.5", "\"3\"", "null", "true"] {
        let line = format!("{{\"type\":\"chosen\",\"token\":\"1\",\"slot\":{}}}", slot);
        assert_eq!(parse_response(&line), None, "{}", line);
    }
}

#[test]
fn parse_rejects_missing_members() {
    assert_eq!(parse_response("{\"type\":\"chosen\",\"token\":\"1\"}"), None);
    assert_eq!(parse_response("{\"type\":\"chosen\",\"slot\":1}"), None);
    assert_eq!(parse_response("{\"token\":\"1\",\"slot\":1}"), None);
    assert_eq!(parse_response("{\"type\":\"cancel\",\"reason\":\"x\"}"), None);
    assert_eq!(parse_response("{\"type\":\"cancel\",\"token\":1}"), None);
    assert_eq!(parse_response("{\"type\":5,\"token\":\"1\"}"), None);
    assert_eq!(parse_response("{}"), None);
}

#[test]
fn parse_rejects_other_types_and_malformed_text() {
    assert_eq!(parse_response("{\"type\":\"show\",\"token\":\"1\",\"slot\":1}"), None);
    assert_eq!(parse_response("{\"type\":\"Chosen\",\"token\":\"1\",\"slot\":1}"), None);
    assert_eq!(parse_response("{\"type\":\"hide\",\"token\":\"1\"}"), None);
    assert_eq!(parse_response(""), None);
    assert_eq!(parse_response("chosen"), None);
    assert_eq!(parse_response("{\"type\":\"cancel\",\"token\":\"1\""), None);
    assert_eq!(parse_response("{\"type\":\"cancel\",\"token\":\"1\"} trailing"), None);
    assert_eq!(parse_response("[\"cancel\",\"1\"]"), None);
    assert_eq!(parse_response("\"cancel\""), None);
    assert_eq!(parse_response("null"), None);
}

#[test]
fn response_from_fields_cases() {
    assert_eq!(response_from_fields(text("chosen"), text("1"), Some(1), None), Some(chosen("1", 1)));
    assert_eq!(response_from_fields(text("chosen"), text("1"), Some(6), text("r")), Some(chosen("1", 6)));
    assert_eq!(response_from_fields(text("chosen"), text("1"), Some(0), None), None);
    assert_eq!(response_from_fields(text("chosen"), text("1"), Some(7), None), None);
    assert_eq!(response_from_fields(text("chosen"), text("1"), Some(257), None), None);
    assert_eq!(response_from_fields(text("chosen"), text("1"), Some(u64::MAX), None), None);
    assert_eq!(response_from_fields(text("chosen"), text("1"), None, None), None);
    assert_eq!(response_from_fields(text("chosen"), None, Some(1), None), None);
    assert_eq!(response_from_fields(None, text("1"), Some(1), None), None);
    assert_eq!(response_from_fields(text("cancel"), text("1"), None, text("why")), Some(cancel("1", "why")));
    assert_eq!(response_from_fields(text("cancel"), text("1"), Some(9), None), Some(cancel("1", "timeout")));
    assert_eq!(response_from_fields(text("cancel"), None, None, text("why")), None);
    assert_eq!(response_from_fields(text("other"), text("1"), Some(1), text("why")), None);
    assert_eq!(response_from_fields(text(""), text("1"), Some(1), None), None);
}

#[test]
fn datagram_with_one_message() {
    assert_eq!(
        decode_datagram(b"{\"type\":\"chosen\",\"token\":\"1\",\"slot\":3}"),
        vec![chosen("1", 3)]
    );
    assert_eq!(
        decode_datagram(b"\n  {\"type\":\"cancel\",\"token\":\"1\"}\r\n\r\n"),
        vec![cancel("1", "timeout")]
    );
}

#[test]
fn datagram_with_several_messages() {
    let datagram = b"{\"type\":\"chosen\",\"token\":\"1\",\"slot\":3}\n\
        not json\n\
        \n\
        {\"type\":\"chosen\",\"token\":\"1\",\"slot\":9}\r\n\
        {\"type\":\"cancel\",\"token\":\"2\",\"reason\":\"escape\"}\n";
    assert_eq!(decode_datagram(datagram), vec![chosen("1", 3), cancel("2", "escape")]);
}

#[test]
fn datagram_with_duplicates_keeps_both() {
    let datagram = b"{\"type\":\"cancel\",\"token\":\"2\"}\n{\"type\":\"cancel\",\"token\":\"2\"}";
    assert_eq!(decode_datagram(datagram), vec![cancel("2", "timeout"), cancel("2", "timeout")]);
}

#[test]
fn datagram_that_is_empty_or_not_utf8_holds_nothing() {
    assert_eq!(decode_datagram(b""), Vec::<Event>::new());
    assert_eq!(decode_datagram(b" \n "), Vec::<Event>::new());
    assert_eq!(decode_datagram(&[0xff, 0xfe]), Vec::<Event>::new());
    let mut bytes = b"{\"type\":\"cancel\",\"token\":\"2\"}\n".to_vec();
    bytes.push(0xc3);
    assert_eq!(decode_datagram(&bytes), Vec::<Event>::new());
}

#[test]
fn datagram_split_inside_message_holds_nothing() {
    assert_eq!(decode_datagram(b"{\"type\":\"cancel\",\n\"token\":\"2\"}"), Vec::<Event>::new());
}

#[test]
fn parse_show_and_hide() {
    assert_eq!(
        parse_command("{\"type\":\"show\",\"mode\":\"save\",\"token\":\"1\",\"timeout_ms\":800,\"anchor\":\"mouse\"}"),
        Some(show("save", "1", 800))
    );
    assert_eq!(
        parse_command("{\"type\":\"hide\",\"token\":\"1\"}"),
        Some(Command::Hide { token: "1".to_string() })
    );
}

#[test]
fn parse_command_rejects_partial_messages() {
    assert_eq!(parse_command("{\"type\":\"show\",\"token\":\"1\",\"timeout_ms\":800}"), None);
    assert_eq!(parse_command("{\"type\":\"show\",\"mode\":\"save\",\"timeout_ms\":800}"), None);
    assert_eq!(parse_command("{\"type\":\"show\",\"mode\":\"save\",\"token\":\"1\"}"), None);
    assert_eq!(
        parse_command("{\"type\":\"show\",\"mode\":\"save\",\"token\":\"1\",\"timeout_ms\":-1}"),
        None
    );
    assert_eq!(
        parse_command("{\"type\":\"show\",\"mode\":\"save\",\"token\":1,\"timeout_ms\":800}"),
        None
    );
    assert_eq!(parse_command("{\"type\":\"hide\"}"), None);
    assert_eq!(parse_command("{\"type\":\"chosen\",\"token\":\"1\",\"slot\":1}"), None);
    assert_eq!(parse_command("{\"mode\":\"save\",\"token\":\"1\",\"timeout_ms\":800}"), None);
    assert_eq!(parse_command("show"), None);
}

#[test]
fn command_from_fields_cases() {
    assert_eq!(
        command_from_fields(text("show"), text("paste"), text("3"), Some(800)),
        Some(show("paste", "3", 800))
    );
    assert_eq!(command_from_fields(text("show"), None, text("3"), Some(800)), None);
    assert_eq!(command_from_fields(text("show"), text("paste"), None, Some(800)), None);
    assert_eq!(command_from_fields(text("show"), text("paste"), text("3"), None), None);
    assert_eq!(
        command_from_fields(text("hide"), None, text("3"), None),
        Some(Command::Hide { token: "3".to_string() })
    );
    assert_eq!(
        command_from_fields(text("hide"), text("save"), text("3"), Some(1)),
        Some(Command::Hide { token: "3".to_string() })
    );
    assert_eq!(command_from_fields(text("hide"), None, None, None), None);
    assert_eq!(command_from_fields(None, text("save"), text("3"), Some(1)), None);
    assert_eq!(command_from_fields(text("cancel"), text("save"), text("3"), Some(1)), None);
}

#[test]
fn decode_command_trims_and_checks_utf8() {
    assert_eq!(
        decode_command(b"  {\"type\":\"hide\",\"token\":\"8\"}\n"),
        Some(Command::Hide { token: "8".to_string() })
    );
    assert_eq!(decode_command(&[b'{', 0xff, b'}']), None);
    assert_eq!(decode_command(b""), None);
}

#[test]
fn surface_shows_then_hides_once() {
    let mut surface = Surface::new();
    assert_eq!(surface.current_token(), None);
    assert_eq!(surface.apply(&show("save", "4", 800)), WindowAction::Show);
    assert_eq!(surface.current_token(), Some("4"));
    let hide_four = Command::Hide { token: "4".to_string() };
    assert_eq!(surface.apply(&hide_four), WindowAction::Hide);
    assert_eq!(surface.current_token(), None);
    assert_eq!(surface.apply(&hide_four), WindowAction::Nothing);
    assert_eq!(surface.current_token(), None);
}

#[test]
fn surface_ignores_hide_of_another_token() {
    let mut surface = Surface::new();
    surface.apply(&show("paste", "5", 800));
    assert_eq!(surface.apply(&Command::Hide { token: "4".to_string() }), WindowAction::Nothing);
    assert_eq!(surface.current_token(), Some("5"));
}

#[test]
fn surface_show_replaces_token() {
    let mut surface = Surface::new();
    surface.apply(&show("save", "5", 800));
    assert_eq!(surface.apply(&show("paste", "6", 800)), WindowAction::Show);
    assert_eq!(surface.current_token(), Some("6"));
    assert_eq!(surface.apply(&Command::Hide { token: "5".to_string() }), WindowAction::Nothing);
    assert_eq!(surface.apply(&Command::Hide { token: "6".to_string() }), WindowAction::Hide);
}

#[test]
fn surface_resolve_forgets_token() {
    let mut surface = Surface::new();
    surface.apply(&show("save", "5", 800));
    surface.resolve();
    assert_eq!(surface.current_token(), None);
    assert_eq!(surface.apply(&Command::Hide { token: "5".to_string() }), WindowAction::Nothing);
}
