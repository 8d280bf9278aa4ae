use lib::command::{from_slice, parse_message, CommandID, CommandMsg, ControlMode};
use lib::error::{FanError, ParseFailure};

#[test]
fn command_ids_from_numbers() {
    assert_eq!(CommandID::from(0), CommandID::setControlMode);
    assert_eq!(CommandID::from(1), CommandID::percentSpeedMode);
    assert_eq!(CommandID::from(2), CommandID::temperatureSpeedMode);
    assert_eq!(CommandID::from(3), CommandID::invalidCommand);
    assert_eq!(CommandID::from(65535), CommandID::invalidCommand);
}

#[test]
fn control_modes_from_numbers() {
    assert_eq!(ControlMode::from(0), ControlMode::sleep);
    assert_eq!(ControlMode::from(1), ControlMode::tracking);
    assert_eq!(ControlMode::from(2), ControlMode::oscillate);
    assert_eq!(ControlMode::from(3), ControlMode::point);
    assert_eq!(ControlMode::from(4), ControlMode::night);
    assert_eq!(ControlMode::from(5), ControlMode::invalidParameter);
}

#[test]
fn decimal_fields() {
    assert_eq!(from_slice(b"360"), Ok(360));
    assert_eq!(from_slice(b""), Err(FanError::ParseError));
    assert_eq!(from_slice(b"1f"), Err(FanError::ParseError));
    assert_eq!(from_slice(b"70000"), Err(FanError::ParseError));
    assert_eq!(from_slice("\u{e9}".as_bytes()), Err(FanError::ParseError));
}

#[test]
fn decimal_fields_that_are_not_utf8() {
    assert_eq!(
        from_slice(&[0xff, 0xfe]),
        Err(FanError::Utf8Error { valid_up_to: 0, error_len: Some(1) })
    );
    assert_eq!(
        from_slice(&[0x31, 0x32, 0xe2, 0x82]),
        Err(FanError::Utf8Error { valid_up_to: 2, error_len: None })
    );
    // A field that is not UTF-8 is not a number either.
    assert_eq!(parse_message(&[0xff, b',', b'1', b',', b'2', b'.']), Err(ParseFailure::InvalidNumber));
}

#[test]
fn well_formed_message_is_read() {
    let r = parse_message(b"0,2,90.");
    assert_eq!(
        r,
        Ok((
            6,
            CommandMsg {
                cmd_id: CommandID::setControlMode,
                param_id: ControlMode::oscillate,
                param_value: 90
            }
        ))
    );
}

#[test]
fn reading_stops_at_the_dot() {
    let input = b"1,0,55.\n trailing";
    let (n, m) = parse_message(input).unwrap();
    assert_eq!(n, 6);
    assert_eq!(&input[n..n + 1], b".");
    assert_eq!(m.cmd_id, CommandID::percentSpeedMode);
    assert_eq!(m.param_id, ControlMode::sleep);
    assert_eq!(m.param_value, 55);
}

#[test]
fn unknown_numbers_become_invalid_variants() {
    let (_, m) = parse_message(b"9,12,3.").unwrap();
    assert_eq!(m.cmd_id, CommandID::invalidCommand);
    assert_eq!(m.param_id, ControlMode::invalidParameter);
}

#[test]
fn missing_separators_are_incomplete() {
    assert_eq!(parse_message(b""), Err(ParseFailure::Incomplete));
    assert_eq!(parse_message(b"1"), Err(ParseFailure::Incomplete));
    assert_eq!(parse_message(b"1,2"), Err(ParseFailure::Incomplete));
    assert_eq!(parse_message(b"1,2,3"), Err(ParseFailure::Incomplete));
    assert_eq!(parse_message(b"1,2,3\n"), Err(ParseFailure::Incomplete));
}

#[test]
fn bad_fields_are_invalid_numbers() {
    assert_eq!(parse_message(b"x,2,3."), Err(ParseFailure::InvalidNumber));
    assert_eq!(parse_message(b",2,3."), Err(ParseFailure::InvalidNumber));
    assert_eq!(parse_message(b"1,,3."), Err(ParseFailure::InvalidNumber));
    assert_eq!(parse_message(b"1,2,."), Err(ParseFailure::InvalidNumber));
    assert_eq!(parse_message(b"1,2,3x."), Err(ParseFailure::InvalidNumber));
    assert_eq!(parse_message(b"1,2,99999."), Err(ParseFailure::InvalidNumber));
    // The first field is read before the second separator is looked for.
    assert_eq!(parse_message(b"x,"), Err(ParseFailure::InvalidNumber));
    // A dot inside the first fields is part of them.
    assert_eq!(parse_message(b"1.5,2,3."), Err(ParseFailure::InvalidNumber));
}

#[test]
fn written_commands_round_trip() {
    for (c, p, v) in [(0u16, 0u16, 0u16), (1, 4, 100), (2, 3, 65535), (7, 9, 360), (65535, 65535, 1)] {
        let text = format!("{},{},{}.tail", c, p, v);
        let (n, m) = parse_message(text.as_bytes()).unwrap();
        assert_eq!(n, text.len() - 5);
        assert_eq!(m.cmd_id, CommandID::from(c));
        assert_eq!(m.param_id, ControlMode::from(p));
        assert_eq!(m.param_value, v);
    }
}
