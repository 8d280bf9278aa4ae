use lib::error::{FanError, ParseFailure};
use lib::temperature::{from_slice_temperature, parse_temp, read_temperature_bits, whole_fahrenheit, Temperature};

#[test]
fn default_temperature_control_is_off_at_seventy() {
    let t = Temperature::default();
    assert!(!t.enable);
    assert_eq!(t.desired, 70);
}

#[test]
fn hex_fields() {
    assert_eq!(from_slice_temperature(b"a4"), Ok(0xa4));
    assert_eq!(from_slice_temperature(b"0C"), Ok(12));
    assert_eq!(from_slice_temperature(b"+f"), Ok(15));
    assert_eq!(from_slice_temperature(b"0x"), Err(FanError::ParseError));
    assert_eq!(from_slice_temperature(b""), Err(FanError::ParseError));
    assert_eq!(from_slice_temperature(b"zz"), Err(FanError::ParseError));
    assert_eq!(
        from_slice_temperature(&[0xff, 0xfe]),
        Err(FanError::Utf8Error { valid_up_to: 0, error_len: Some(1) })
    );
    assert_eq!(
        from_slice_temperature(&[b'a', 0xc3]),
        Err(FanError::Utf8Error { valid_up_to: 1, error_len: None })
    );
}

#[test]
fn readout_is_low_byte_then_high_byte() {
    assert_eq!(parse_temp(b"0xc1a4\n"), Ok((7, 0xa4c1)));
    assert_eq!(parse_temp(b"0x0000\nmore"), Ok((7, 0)));
    assert_eq!(parse_temp(b"0xffff\n"), Ok((7, 0xffff)));
}

#[test]
fn short_or_bad_readouts_fail() {
    assert_eq!(parse_temp(b""), Err(ParseFailure::Incomplete));
    assert_eq!(parse_temp(b"0xc"), Err(ParseFailure::Incomplete));
    assert_eq!(parse_temp(b"0xc1"), Err(ParseFailure::Incomplete));
    assert_eq!(parse_temp(b"0xc1a"), Err(ParseFailure::Incomplete));
    assert_eq!(parse_temp(b"0xc1a4"), Err(ParseFailure::Incomplete));
    assert_eq!(parse_temp(b"0xzz"), Err(ParseFailure::InvalidNumber));
    assert_eq!(parse_temp(b"0xc1zz\n"), Err(ParseFailure::InvalidNumber));
}

#[test]
fn readouts_round_trip() {
    for low in [0u8, 1, 0x7f, 0xc1, 0xff] {
        for high in [0u8, 0x0c, 0xa4, 0xff] {
            let text = format!("0x{:02x}{:02x}\n", low, high);
            assert_eq!(parse_temp(text.as_bytes()), Ok((7, high as u16 * 256 + low as u16)));
        }
    }
}

#[test]
fn temperature_bits_from_sensor_streams() {
    assert_eq!(read_temperature_bits(b"0xc1a4\n", b""), Ok(0x4c1));
    assert_eq!(read_temperature_bits(b"0xc1a4\n", b"Error: Read failed\n"), Err(FanError::TemperatureError));
    assert_eq!(read_temperature_bits(b"garbage", b""), Err(FanError::ParseError));
}

#[test]
fn whole_fahrenheit_matches_the_float_formula() {
    for chopped in 0u16..=0x0fff {
        let f = (chopped as f64 / 16.0) * 9.0 / 5.0 + 32.0;
        assert_eq!(whole_fahrenheit(chopped), f as u16, "chopped {}", chopped);
    }
    assert_eq!(whole_fahrenheit(0), 32);
    assert_eq!(whole_fahrenheit(400), 77);
}

#[test]
fn fan_runs_faster_above_desired_temperature() {
    let t = Temperature { enable: true, desired: 77 };
    // 400 / 16 = 25 degrees C = 77 degrees F.
    assert_eq!(t.fan_duty(400), 50);
    assert_eq!(t.fan_duty(416), 100);
    assert_eq!(t.fan_duty(0), 50);
    let mut last = 0;
    for chopped in 0u16..=0x0fff {
        let duty = t.fan_duty(chopped);
        assert!(duty == 50 || duty == 100);
        assert!(duty >= last);
        last = duty;
    }
}

#[test]
fn sensor_is_read_only_while_temperature_control_is_on() {
    let mut t = Temperature::default();
    assert!(!t.wants_reading());
    t.enable = true;
    assert!(t.wants_reading());
}
