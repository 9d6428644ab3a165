use coinstr::numeric_input::{next_value, parse_number, Event, NumericInput};

#[test]
fn parses_what_the_standard_parser_parses() {
    let texts = [
        "", "0", "1", "9", "10", "42", "007", "+5", "+0", "+", "-", "-1", "-0", "++1", "+-1", "1+",
        " 1", "1 ", "1_000", "1,000", "1.0", "0x10", "abc", "12a", "a12", "4294967295",
        "4294967296", "4294967300", "42949672950", "04294967295", "+4294967295", "+4294967296",
        "00000000000000000001", "99999999999999999999999999", "18446744073709551616",
        "٣", "1٣", "１２", "1\u{e9}", "\u{e9}", "+\u{e9}", "\0", "1\0",
    ];
    for text in texts {
        assert_eq!(parse_number(text), text.parse::<u32>().ok(), "{text:?}");
    }
}

#[test]
fn parses_every_number_near_the_ends_of_the_range() {
    for number in (0u64..2_000).chain(4_294_966_000..4_294_968_000) {
        let text = number.to_string();
        assert_eq!(parse_number(&text), text.parse::<u32>().ok());
        let signed = format!("+{number}");
        assert_eq!(parse_number(&signed), signed.parse::<u32>().ok());
    }
    assert_eq!(parse_number("4294967295"), Some(u32::MAX));
    assert_eq!(parse_number("4294967296"), None);
}

#[test]
fn increment_adds_one_and_stops_at_the_top() {
    assert_eq!(next_value(Some(41), &Event::IncrementPressed), Some(Some(42)));
    assert_eq!(next_value(None, &Event::IncrementPressed), Some(Some(1)));
    assert_eq!(next_value(Some(u32::MAX - 1), &Event::IncrementPressed), Some(Some(u32::MAX)));
    assert_eq!(next_value(Some(u32::MAX), &Event::IncrementPressed), Some(Some(u32::MAX)));
}

#[test]
fn decrement_takes_one_and_stops_at_zero() {
    assert_eq!(next_value(Some(42), &Event::DecrementPressed), Some(Some(41)));
    assert_eq!(next_value(Some(1), &Event::DecrementPressed), Some(Some(0)));
    assert_eq!(next_value(Some(0), &Event::DecrementPressed), Some(Some(0)));
    assert_eq!(next_value(None, &Event::DecrementPressed), Some(Some(0)));
}

#[test]
fn edited_text_gives_its_number_or_nothing() {
    let typed = |text: &str| Event::InputChanged(text.to_string());
    assert_eq!(next_value(Some(7), &typed("")), Some(None));
    assert_eq!(next_value(Some(7), &typed("12")), Some(Some(12)));
    assert_eq!(next_value(None, &typed("0")), Some(Some(0)));
    assert_eq!(next_value(Some(7), &typed("twelve")), None);
    assert_eq!(next_value(Some(7), &typed("-3")), None);
    assert_eq!(next_value(Some(7), &typed("4294967296")), None);
    assert_eq!(next_value(Some(7), &typed(" ")), None);
}

#[test]
fn update_hands_the_change_to_the_listener() {
    let mut input = NumericInput::new(Some(9), |value: Option<u32>| format!("{value:?}"));
    assert_eq!(input.value(), Some(9));
    assert_eq!(input.update(Event::IncrementPressed), Some("Some(10)".to_string()));
    assert_eq!(input.update(Event::DecrementPressed), Some("Some(8)".to_string()));
    assert_eq!(input.update(Event::InputChanged(String::new())), Some("None".to_string()));
    assert_eq!(input.update(Event::InputChanged("33".to_string())), Some("Some(33)".to_string()));
    assert_eq!(input.update(Event::InputChanged("x".to_string())), None);
    assert_eq!(input.value(), Some(9));
}

#[test]
fn update_does_not_call_the_listener_for_text_that_is_no_number() {
    let calls = std::cell::Cell::new(0);
    let mut input = NumericInput::new(None, |value: Option<u32>| {
        calls.set(calls.get() + 1);
        value
    });
    assert_eq!(input.update(Event::InputChanged("1e3".to_string())), None);
    assert_eq!(calls.get(), 0);
    assert_eq!(input.update(Event::InputChanged("1000".to_string())), Some(Some(1000)));
    assert_eq!(input.update(Event::IncrementPressed), Some(Some(1)));
    assert_eq!(calls.get(), 2);
}

#[test]
fn events_are_cloned_with_their_text() {
    for event in [
        Event::InputChanged("12".to_string()),
        Event::IncrementPressed,
        Event::DecrementPressed,
    ] {
        assert_eq!(event.clone(), event);
    }
}
