//! The temperature loop: reading the I2C sensor's word readout and choosing
//! the fan speed that holds the desired temperature.
use vstd::prelude::*;
use vstd::slice::slice_subrange;
use crate::error::{FanError, ParseFailure};
use crate::number::{digit_value, digits_value, parse_u16, read_u16_text, spec_parse_u16, spec_read_u16_text, unsigned_digits};

verus! {

/// The temperature control state shared with the control loop.
pub struct Temperature {
    /// Whether the fan follows the temperature.
    pub enable: bool,
    /// The temperature to hold, in whole degrees Fahrenheit.
    pub desired: u16,
}

impl Temperature {
    /// Temperature control off, holding 70 °F once enabled.
    pub fn default() -> (t: Temperature)
        ensures
            !t.enable,
            t.desired == 70,
    {
        Temperature { enable: false, desired: 70 }
    }

    /// Whether a round of the temperature loop reads the sensor and sets
    /// the fan speed: only while temperature control is on.
    pub fn wants_reading(&self) -> (r: bool)
        ensures
            r == self.enable,
    {
        self.enable
    }

    /// The fan duty percentage for a sensor reading of `chopped` (the 12
    /// temperature bits): half speed while the room is no warmer than the
    /// desired temperature, full speed otherwise.
    pub fn fan_duty(&self, chopped: u16) -> (duty: u32)
        requires
            chopped <= 0x0FFF,
        ensures
            duty == spec_fan_duty(self.desired, chopped as nat),
    {
        if self.desired >= whole_fahrenheit(chopped) {
            50
        } else {
            100
        }
    }
}

/// Whole degrees Fahrenheit of the 12 temperature bits `chopped` (units of
/// 1/16 °C): the integral part of `(chopped / 16) * 9 / 5 + 32`.
pub open spec fn spec_whole_fahrenheit(chopped: nat) -> nat {
    (9 * chopped + 2560) / 80
}

/// Fan duty percentage for a desired temperature and a reading.
pub open spec fn spec_fan_duty(desired: u16, chopped: nat) -> u32 {
    if desired >= spec_whole_fahrenheit(chopped) {
        50
    } else {
        100
    }
}

/// Reads a two-character hexadecimal field of the sensor readout.
pub open spec fn spec_hex_field(s: Seq<u8>) -> Result<u16, FanError> {
    spec_read_u16_text(s, 16)
}

/// The readout grammar `0xLLMM` + one more byte: two bytes skipped, the low
/// byte and the high byte as two hexadecimal characters each, one byte
/// skipped. Fields are read in order, each as soon as its bytes are there.
pub open spec fn spec_parse_temp(s: Seq<u8>) -> Result<(int, u16), ParseFailure> {
    if s.len() < 4 {
        Err(ParseFailure::Incomplete)
    } else {
        match spec_parse_u16(s.subrange(2, 4), 16) {
            None => Err(ParseFailure::InvalidNumber),
            Some(lsb) => if s.len() < 6 {
                Err(ParseFailure::Incomplete)
            } else {
                match spec_parse_u16(s.subrange(4, 6), 16) {
                    None => Err(ParseFailure::InvalidNumber),
                    Some(msb) => if s.len() < 7 {
                        Err(ParseFailure::Incomplete)
                    } else {
                        Ok((7, (msb * 256 + lsb) as u16))
                    },
                }
            },
        }
    }
}

/// The 12 temperature bits of a sensor reading, or why there is none: the
/// sensor wrote to its error stream, or its readout is not in the grammar.
pub open spec fn spec_temperature_bits(stdout: Seq<u8>, stderr: Seq<u8>) -> Result<u16, FanError> {
    if stderr.len() == 0 {
        match spec_parse_temp(stdout) {
            Ok((_, raw)) => Ok((raw % 4096) as u16),
            Err(_) => Err(FanError::ParseError),
        }
    } else {
        Err(FanError::TemperatureError)
    }
}

/// Two characters in hexadecimal denote at most 255.
proof fn lemma_two_hex_chars(d: Seq<u8>)
    requires
        d.len() == 2,
        spec_parse_u16(d, 16) is Some,
    ensures
        spec_parse_u16(d, 16).unwrap() <= 255,
{
    let u = unsigned_digits(d);
    assert(digits_value(Seq::<u8>::empty(), 16) == 0);
    if u.len() == 1 {
        assert(u.drop_last() =~= Seq::<u8>::empty());
        assert(crate::number::is_digit(u[0], 16));
    } else {
        assert(u =~= d);
        assert(d.drop_last().drop_last() =~= Seq::<u8>::empty());
        assert(crate::number::is_digit(d[0], 16));
        assert(crate::number::is_digit(d[1], 16));
        assert(digits_value(d.drop_last(), 16) == digit_value(d[0]));
    }
}

/// Reads one hexadecimal field of the sensor readout.
pub fn from_slice_temperature(input: &[u8]) -> (r: Result<u16, FanError>)
    ensures
        r == spec_hex_field(input@),
{
    read_u16_text(input, 16)
}

/// Reads the sensor readout (see `spec_parse_temp`): on success, the number
/// of bytes read and the 16-bit word `high * 256 + low`.
pub fn parse_temp(s: &[u8]) -> (r: Result<(usize, u16), ParseFailure>)
    ensures
        r matches Ok((n, v)) ==> spec_parse_temp(s@) == Ok::<(int, u16), ParseFailure>((n as int, v)),
        r matches Err(e) ==> spec_parse_temp(s@) == Err::<(int, u16), ParseFailure>(e),
{
    if s.len() < 4 {
        return Err(ParseFailure::Incomplete);
    }
    let lsb = match parse_u16(slice_subrange(s, 2, 4), 16) {
        Some(v) => v,
        None => return Err(ParseFailure::InvalidNumber),
    };
    if s.len() < 6 {
        return Err(ParseFailure::Incomplete);
    }
    let msb = match parse_u16(slice_subrange(s, 4, 6), 16) {
        Some(v) => v,
        None => return Err(ParseFailure::InvalidNumber),
    };
    if s.len() < 7 {
        return Err(ParseFailure::Incomplete);
    }
    proof {
        lemma_two_hex_chars(s@.subrange(2, 4));
        lemma_two_hex_chars(s@.subrange(4, 6));
    }
    Ok((7, msb * 256 + lsb))
}

/// The 12 temperature bits of a sensor run whose standard output and error
/// streams are given (see `spec_temperature_bits`).
pub fn read_temperature_bits(stdout: &[u8], stderr: &[u8]) -> (r: Result<u16, FanError>)
    ensures
        r == spec_temperature_bits(stdout@, stderr@),
{
    if stderr.len() == 0 {
        match parse_temp(stdout) {
            Ok((_, parsed)) => {
                let chopped = parsed & 0x0FFF;
                assert(parsed & 0x0FFF == parsed % 4096) by (bit_vector);
                Ok(chopped)
            },
            Err(_) => Err(FanError::ParseError),
        }
    } else {
        Err(FanError::TemperatureError)
    }
}

/// Whole degrees Fahrenheit of the 12 temperature bits (see
/// `spec_whole_fahrenheit`). The floating-point value
/// `(chopped / 16) * 9 / 5 + 32` is within rounding of
/// `(9 * chopped + 2560) / 80`, a fraction with denominator 80 that is whole
/// only where the division by 5 is exact, so both have the same integral
/// part.
pub fn whole_fahrenheit(chopped: u16) -> (f: u16)
    requires
        chopped <= 0x0FFF,
    ensures
        f == spec_whole_fahrenheit(chopped as nat),
{
    ((9 * (chopped as u32) + 2560) / 80) as u16
}

/// Lowercase hexadecimal character of a value below 16.
pub open spec fn hex_char(n: nat) -> u8 {
    if n < 10 {
        (48 + n) as u8
    } else {
        (87 + n) as u8
    }
}

/// Two lowercase hexadecimal characters of a byte.
pub open spec fn hex_byte(n: u8) -> Seq<u8> {
    seq![hex_char(n as nat / 16), hex_char(n as nat % 16)]
}

/// The sensor's word readout: `0x`, the low byte and the high byte in hex,
/// a newline, and whatever follows.
pub open spec fn readout_bytes(low: u8, high: u8, rest: Seq<u8>) -> Seq<u8> {
    seq![48u8, 120u8] + hex_byte(low) + hex_byte(high) + seq![10u8] + rest
}

proof fn lemma_hex_byte(n: u8)
    ensures
        spec_parse_u16(hex_byte(n), 16) == Some(n as u16),
{
    let h = hex_byte(n);
    assert(unsigned_digits(h) =~= h);
    assert(h.drop_last() =~= seq![h[0]]);
    assert(seq![h[0]].drop_last() =~= Seq::<u8>::empty());
    assert(digits_value(Seq::<u8>::empty(), 16) == 0);
    assert(digit_value(h[0]) == n as nat / 16);
    assert(digit_value(h[1]) == n as nat % 16);
    assert(digits_value(seq![h[0]], 16) == digit_value(h[0]));
    assert(crate::number::all_digits(h, 16)) by {
        assert forall|i: int| 0 <= i < h.len() implies crate::number::is_digit(#[trigger] h[i], 16) by {
        }
    }
}

/// Law: a readout `0xLLHH` followed by a newline is read as the word
/// `HH * 256 + LL`, seven bytes long, whatever follows it.
pub proof fn readout_round_trip(low: u8, high: u8, rest: Seq<u8>)
    ensures
        spec_parse_temp(readout_bytes(low, high, rest)) == Ok::<(int, u16), ParseFailure>(
            (7, (high as int * 256 + low as int) as u16),
        ),
{
    let s = readout_bytes(low, high, rest);
    assert(s.subrange(2, 4) =~= hex_byte(low));
    assert(s.subrange(4, 6) =~= hex_byte(high));
    lemma_hex_byte(low);
    lemma_hex_byte(high);
}

/// Law: a warmer reading never calls for a lower fan duty, and the duty is
/// always half or full speed.
pub proof fn warmer_never_slower(desired: u16, cooler: nat, warmer: nat)
    requires
        cooler <= warmer,
    ensures
        spec_fan_duty(desired, cooler) <= spec_fan_duty(desired, warmer),
        spec_fan_duty(desired, warmer) == 50 || spec_fan_duty(desired, warmer) == 100,
{
    assert(spec_whole_fahrenheit(cooler) <= spec_whole_fahrenheit(warmer)) by {
        vstd::arithmetic::div_mod::lemma_div_is_ordered(
            (9 * cooler + 2560) as int,
            (9 * warmer + 2560) as int,
            80,
        );
    }
}

/// Law: with an empty error stream, the readout `0xLLHH` and a newline
/// gives the temperature bits `(HH * 256 + LL) mod 4096`: all twelve low
/// bits of the word are kept, and nothing above them.
pub proof fn readout_temperature_bits(low: u8, high: u8, rest: Seq<u8>)
    ensures
        spec_temperature_bits(readout_bytes(low, high, rest), Seq::<u8>::empty()) == Ok::<
            u16,
            FanError,
        >(((high as int * 256 + low as int) % 4096) as u16),
        ((high as int * 256 + low as int) % 4096) < 4096,
{
    readout_round_trip(low, high, rest);
}

/// Law: the whole-Fahrenheit reading `f` of `chopped` sixteenths of a
/// degree Celsius is the integral part of `chopped * 9 / 80 + 32`:
/// `80 * f <= 9 * chopped + 2560 < 80 * (f + 1)`.
pub proof fn whole_fahrenheit_is_floor(chopped: nat)
    ensures
        80 * spec_whole_fahrenheit(chopped) <= 9 * chopped + 2560,
        9 * chopped + 2560 < 80 * (spec_whole_fahrenheit(chopped) + 1),
{
}

/// Law: in temperature mode the fan runs at full speed (100) exactly when
/// the reading, in whole degrees Fahrenheit, is above the desired
/// temperature, and at half speed (50) otherwise:
/// `9 * chopped + 2560 >= 80 * (desired + 1)` is "warmer than desired".
pub proof fn fan_duty_follows_desired(desired: u16, chopped: nat)
    ensures
        spec_fan_duty(desired, chopped) == 100 <==> 9 * chopped + 2560 >= 80 * (desired + 1),
        spec_fan_duty(desired, chopped) == 50 <==> 9 * chopped + 2560 < 80 * (desired + 1),
{
    whole_fahrenheit_is_floor(chopped);
}

} // verus!
