//! The command datagram: `<command id>,<parameter id>,<value>.` with three
//! decimal `u16` fields, as the mobile app sends it.
use vstd::prelude::*;
use vstd::std_specs::convert::FromSpecImpl;
use vstd::slice::slice_subrange;
use crate::error::{FanError, ParseFailure};
use crate::number::{all_digits, decimal, parse_u16, read_u16_text, spec_parse_u16, spec_read_u16_text, decimal_round_trip};

verus! {

/// The command of a datagram.
#[allow(non_camel_case_types)]
#[derive(Debug, Clone, Copy, PartialEq, Eq, Structural)]
pub enum CommandID {
    /// Number 0: set the control mode named by the parameter.
    setControlMode,
    /// Number 1: run the fan at the percentage given as value.
    percentSpeedMode,
    /// Number 2: hold the temperature given as value.
    temperatureSpeedMode,
    /// Any other number.
    invalidCommand,
}

/// The control mode of a `setControlMode` command.
#[allow(non_camel_case_types)]
#[derive(Debug, Clone, Copy, PartialEq, Eq, Structural)]
pub enum ControlMode {
    /// Number 0: stop the fan.
    sleep,
    /// Number 1: track the user.
    tracking,
    /// Number 2: sweep over the range given as value (degrees).
    oscillate,
    /// Number 3: point at the angle given as value (degrees).
    point,
    /// Number 4: stop the fan after the number of minutes given as value.
    night,
    /// Any other number.
    invalidParameter,
}

/// A decoded command datagram.
#[derive(Debug, Clone, Copy, PartialEq, Eq, Structural)]
pub struct CommandMsg {
    pub cmd_id: CommandID,
    pub param_id: ControlMode,
    pub param_value: u16,
}

/// The command that a number stands for.
pub open spec fn command_id_of(n: u16) -> CommandID {
    if n == 0 {
        CommandID::setControlMode
    } else if n == 1 {
        CommandID::percentSpeedMode
    } else if n == 2 {
        CommandID::temperatureSpeedMode
    } else {
        CommandID::invalidCommand
    }
}

/// The number of a command, where it has one.
pub open spec fn command_id_number(c: CommandID) -> Option<u16> {
    match c {
        CommandID::setControlMode => Some(0),
        CommandID::percentSpeedMode => Some(1),
        CommandID::temperatureSpeedMode => Some(2),
        CommandID::invalidCommand => None,
    }
}

/// The control mode that a number stands for.
pub open spec fn control_mode_of(n: u16) -> ControlMode {
    if n == 0 {
        ControlMode::sleep
    } else if n == 1 {
        ControlMode::tracking
    } else if n == 2 {
        ControlMode::oscillate
    } else if n == 3 {
        ControlMode::point
    } else if n == 4 {
        ControlMode::night
    } else {
        ControlMode::invalidParameter
    }
}

/// The number of a control mode, where it has one.
pub open spec fn control_mode_number(m: ControlMode) -> Option<u16> {
    match m {
        ControlMode::sleep => Some(0),
        ControlMode::tracking => Some(1),
        ControlMode::oscillate => Some(2),
        ControlMode::point => Some(3),
        ControlMode::night => Some(4),
        ControlMode::invalidParameter => None,
    }
}

impl From<u16> for CommandID {
    fn from(cmdid: u16) -> (r: CommandID) {
        match cmdid {
            0 => CommandID::setControlMode,
            1 => CommandID::percentSpeedMode,
            2 => CommandID::temperatureSpeedMode,
            _ => CommandID::invalidCommand,
        }
    }
}

impl FromSpecImpl<u16> for CommandID {
    open spec fn obeys_from_spec() -> bool {
        true
    }

    open spec fn from_spec(v: u16) -> CommandID {
        command_id_of(v)
    }
}

impl From<u16> for ControlMode {
    fn from(param: u16) -> (r: ControlMode) {
        match param {
            0 => ControlMode::sleep,
            1 => ControlMode::tracking,
            2 => ControlMode::oscillate,
            3 => ControlMode::point,
            4 => ControlMode::night,
            _ => ControlMode::invalidParameter,
        }
    }
}

impl FromSpecImpl<u16> for ControlMode {
    open spec fn obeys_from_spec() -> bool {
        true
    }

    open spec fn from_spec(v: u16) -> ControlMode {
        control_mode_of(v)
    }
}

/// Law: a number names a command exactly when it is the number of that
/// command; every other number is the invalid command.
pub proof fn command_id_numbering(n: u16, c: CommandID)
    ensures
        n < 3 ==> command_id_number(command_id_of(n)) == Some(n),
        n >= 3 ==> command_id_of(n) == CommandID::invalidCommand,
        command_id_number(c) matches Some(k) ==> command_id_of(k) == c,
{
}

/// Law: a number names a control mode exactly when it is the number of that
/// mode; every other number is the invalid parameter.
pub proof fn control_mode_numbering(n: u16, m: ControlMode)
    ensures
        n < 5 ==> control_mode_number(control_mode_of(n)) == Some(n),
        n >= 5 ==> control_mode_of(n) == ControlMode::invalidParameter,
        control_mode_number(m) matches Some(k) ==> control_mode_of(k) == m,
{
}

/// `i` is the first position at or after `from` that holds `b`.
pub open spec fn is_first_from(s: Seq<u8>, from: int, b: u8, i: int) -> bool {
    &&& from <= i < s.len()
    &&& s[i] == b
    &&& forall|j: int| from <= j < i ==> s[j] != b
}

/// The first position at or after `from` that holds `b`, if any.
pub open spec fn next_index(s: Seq<u8>, from: int, b: u8) -> Option<int> {
    if exists|i: int| is_first_from(s, from, b, i) {
        Some(choose|i: int| is_first_from(s, from, b, i))
    } else {
        None
    }
}

/// A decimal field of a command, as a `FanError` result.
pub open spec fn spec_decimal_field(s: Seq<u8>) -> Result<u16, FanError> {
    spec_read_u16_text(s, 10)
}

/// The command datagram grammar. The command id runs up to the first `,`,
/// which is skipped; the parameter id runs up to the next `,`, which is
/// skipped; the value runs up to the next `.`, which is left unread. Each
/// field is read as decimal before the next separator is looked for. The
/// result holds the number of bytes read (the offset of the `.`).
pub open spec fn spec_parse_message(s: Seq<u8>) -> Result<(int, CommandMsg), ParseFailure> {
    match next_index(s, 0, 44u8) {
        None => Err(ParseFailure::Incomplete),
        Some(e1) => match spec_parse_u16(s.subrange(0, e1), 10) {
            None => Err(ParseFailure::InvalidNumber),
            Some(c) => match next_index(s, e1 + 1, 44u8) {
                None => Err(ParseFailure::Incomplete),
                Some(e2) => match spec_parse_u16(s.subrange(e1 + 1, e2), 10) {
                    None => Err(ParseFailure::InvalidNumber),
                    Some(p) => match next_index(s, e2 + 1, 46u8) {
                        None => Err(ParseFailure::Incomplete),
                        Some(e3) => match spec_parse_u16(s.subrange(e2 + 1, e3), 10) {
                            None => Err(ParseFailure::InvalidNumber),
                            Some(v) => Ok(
                                (
                                    e3,
                                    CommandMsg {
                                        cmd_id: command_id_of(c),
                                        param_id: control_mode_of(p),
                                        param_value: v,
                                    },
                                ),
                            ),
                        },
                    },
                },
            },
        },
    }
}

/// Reads one decimal field of a command.
pub fn from_slice(input: &[u8]) -> (r: Result<u16, FanError>)
    ensures
        r == spec_decimal_field(input@),
{
    read_u16_text(input, 10)
}

proof fn lemma_first_unique(s: Seq<u8>, from: int, b: u8, i: int)
    requires
        is_first_from(s, from, b, i),
    ensures
        next_index(s, from, b) == Some(i),
{
    let c = choose|k: int| is_first_from(s, from, b, k);
    assert(is_first_from(s, from, b, c));
    if c < i {
        assert(s[c] != b);
    } else if c > i {
        assert(s[i] != b);
    }
}

/// The first position at or after `from` that holds `b`.
fn find_from(s: &[u8], from: usize, b: u8) -> (r: Option<usize>)
    requires
        from <= s@.len(),
    ensures
        r matches Some(i) ==> from <= i < s.len(),
        r matches Some(i) ==> next_index(s@, from as int, b) == Some(i as int),
        r is None ==> next_index(s@, from as int, b) is None,
{
    let mut i = from;
    while i < s.len()
        invariant
            from <= i <= s@.len(),
            forall|j: int| from <= j < i ==> s@[j] != b,
        decreases s@.len() - i,
    {
        if s[i] == b {
            proof {
                lemma_first_unique(s@, from as int, b, i as int);
            }
            return Some(i);
        }
        i = i + 1;
    }
    assert(!exists|k: int| is_first_from(s@, from as int, b, k));
    None
}

/// Reads a command datagram (see `spec_parse_message`): on success, the
/// number of bytes read and the command.
pub fn parse_message(s: &[u8]) -> (r: Result<(usize, CommandMsg), ParseFailure>)
    ensures
        r matches Ok((n, m)) ==> spec_parse_message(s@) == Ok::<(int, CommandMsg), ParseFailure>((n as int, m)),
        r matches Err(e) ==> spec_parse_message(s@) == Err::<(int, CommandMsg), ParseFailure>(e),
{
    let e1 = match find_from(s, 0, 44u8) {
        Some(e) => e,
        None => return Err(ParseFailure::Incomplete),
    };
    let c = match parse_u16(slice_subrange(s, 0, e1), 10) {
        Some(c) => c,
        None => return Err(ParseFailure::InvalidNumber),
    };
    let e2 = match find_from(s, e1 + 1, 44u8) {
        Some(e) => e,
        None => return Err(ParseFailure::Incomplete),
    };
    let p = match parse_u16(slice_subrange(s, e1 + 1, e2), 10) {
        Some(p) => p,
        None => return Err(ParseFailure::InvalidNumber),
    };
    let e3 = match find_from(s, e2 + 1, 46u8) {
        Some(e) => e,
        None => return Err(ParseFailure::Incomplete),
    };
    let v = match parse_u16(slice_subrange(s, e2 + 1, e3), 10) {
        Some(v) => v,
        None => return Err(ParseFailure::InvalidNumber),
    };
    Ok((e3, CommandMsg { cmd_id: CommandID::from(c), param_id: ControlMode::from(p), param_value: v }))
}

/// The datagram `a,b,c.` followed by `tail`.
pub open spec fn message_bytes(a: Seq<u8>, b: Seq<u8>, c: Seq<u8>, tail: Seq<u8>) -> Seq<u8> {
    a + seq![44u8] + b + seq![44u8] + c + seq![46u8] + tail
}

/// Law: a datagram laid out as `a,b,c.` (no `,` in `a` or `b`, no `.` in
/// `c`), whatever follows it, is the command whose fields are `a`, `b` and
/// `c` read in decimal, and reading stops at the `.`; if a field is not a
/// decimal `u16` the datagram is refused as an invalid number.
pub proof fn message_layout(a: Seq<u8>, b: Seq<u8>, c: Seq<u8>, tail: Seq<u8>)
    requires
        !a.contains(44u8),
        !b.contains(44u8),
        !c.contains(46u8),
    ensures
        spec_parse_message(message_bytes(a, b, c, tail)) == match (
            spec_parse_u16(a, 10),
            spec_parse_u16(b, 10),
            spec_parse_u16(c, 10),
        ) {
            (Some(x), Some(y), Some(z)) => Ok(
                (
                    (a.len() + b.len() + c.len() + 2) as int,
                    CommandMsg {
                        cmd_id: command_id_of(x),
                        param_id: control_mode_of(y),
                        param_value: z,
                    },
                ),
            ),
            _ => Err(ParseFailure::InvalidNumber),
        },
{
    let s = message_bytes(a, b, c, tail);
    let e1 = a.len() as int;
    let e2 = e1 + 1 + b.len();
    let e3 = e2 + 1 + c.len();
    assert forall|j: int| 0 <= j < e1 implies s[j] != 44u8 by {
        assert(s[j] == a[j]);
    }
    assert(s[e1] == 44u8);
    lemma_first_unique(s, 0, 44u8, e1);
    assert(s.subrange(0, e1) =~= a);
    assert forall|j: int| e1 + 1 <= j < e2 implies s[j] != 44u8 by {
        assert(s[j] == b[j - e1 - 1]);
    }
    assert(s[e2] == 44u8);
    lemma_first_unique(s, e1 + 1, 44u8, e2);
    assert(s.subrange(e1 + 1, e2) =~= b);
    assert forall|j: int| e2 + 1 <= j < e3 implies s[j] != 46u8 by {
        assert(s[j] == c[j - e2 - 1]);
    }
    assert(s[e3] == 46u8);
    lemma_first_unique(s, e2 + 1, 46u8, e3);
    assert(s.subrange(e2 + 1, e3) =~= c);
}

/// Law: three numbers written in decimal as `c,p,v.` are read back as the
/// command numbered `c`, the control mode numbered `p` and the value `v`.
pub proof fn message_round_trip(c: u16, p: u16, v: u16, tail: Seq<u8>)
    ensures
        spec_parse_message(
            message_bytes(decimal(c as nat), decimal(p as nat), decimal(v as nat), tail),
        ) == Ok::<(int, CommandMsg), ParseFailure>(
            (
                (decimal(c as nat).len() + decimal(p as nat).len() + decimal(v as nat).len() + 2) as int,
                CommandMsg {
                    cmd_id: command_id_of(c),
                    param_id: control_mode_of(p),
                    param_value: v,
                },
            ),
        ),
{
    decimal_round_trip(c);
    decimal_round_trip(p);
    decimal_round_trip(v);
    lemma_digits_no_byte(decimal(c as nat), 44u8);
    lemma_digits_no_byte(decimal(p as nat), 44u8);
    lemma_digits_no_byte(decimal(v as nat), 46u8);
    message_layout(decimal(c as nat), decimal(p as nat), decimal(v as nat), tail);
}

/// Decimal digits contain no separator.
proof fn lemma_digits_no_byte(s: Seq<u8>, b: u8)
    requires
        all_digits(s, 10),
        b == 44u8 || b == 46u8,
    ensures
        !s.contains(b),
{
    if s.contains(b) {
        let i = choose|i: int| 0 <= i < s.len() && s[i] == b;
        assert(crate::number::is_digit(s[i], 10));
    }
}

} // verus!
