//! What the fan does on each command: the decisions of the command loop,
//! for the full fan system and for the simpler fan client.
use vstd::prelude::*;
use crate::command::{CommandID, CommandMsg, ControlMode};
use crate::stepper::Oscillation;
use crate::temperature::Temperature;

verus! {

/// The largest angle, in degrees, that the fan can point at.
pub const MAX_POINT_DEGREES: u16 = 360;

/// The largest fan speed, in percent.
pub const MAX_SPEED_PERCENT: u16 = 100;

/// What the command loop does after a command.
#[derive(Debug, Clone, Copy, PartialEq, Eq, Structural)]
pub enum Action {
    /// Stop the fan (duty 0).
    Sleep,
    /// Tracking mode: announce it, nothing more.
    Track,
    /// Oscillation over the range (degrees) now stands; announce it.
    Oscillate(u16),
    /// Point the fan at the angle (degrees, at most `MAX_POINT_DEGREES`).
    Point(u16),
    /// The angle is out of range; announce it.
    PointRejected(u16),
    /// Stop the fan once the number of minutes has passed.
    NightTimer(u16),
    /// Unknown control mode; announce it.
    InvalidMode,
    /// Run the fan at the percentage (at most `MAX_SPEED_PERCENT`).
    Speed(u16),
    /// The percentage is out of range; announce it.
    SpeedRejected(u16),
    /// Temperature control now holds the temperature; announce it.
    HoldTemperature(u16),
    /// Unknown command; announce it.
    InvalidCommand,
}

/// The action for a command.
pub open spec fn spec_action(cmd: CommandMsg) -> Action {
    let v = cmd.param_value;
    match cmd.cmd_id {
        CommandID::setControlMode => match cmd.param_id {
            ControlMode::sleep => Action::Sleep,
            ControlMode::tracking => Action::Track,
            ControlMode::oscillate => Action::Oscillate(v),
            ControlMode::point => if v <= MAX_POINT_DEGREES {
                Action::Point(v)
            } else {
                Action::PointRejected(v)
            },
            ControlMode::night => Action::NightTimer(v),
            ControlMode::invalidParameter => Action::InvalidMode,
        },
        CommandID::percentSpeedMode => if v <= MAX_SPEED_PERCENT {
            Action::Speed(v)
        } else {
            Action::SpeedRejected(v)
        },
        CommandID::temperatureSpeedMode => Action::HoldTemperature(v),
        CommandID::invalidCommand => Action::InvalidCommand,
    }
}

/// The oscillation switch after a command: an oscillate command turns it
/// on; a command that neither sets a control mode nor names the oscillate
/// parameter turns it off; any other command leaves it.
pub open spec fn oscillation_after(cmd: CommandMsg, enabled: bool) -> bool {
    if cmd.cmd_id == CommandID::setControlMode && cmd.param_id == ControlMode::oscillate {
        true
    } else if cmd.cmd_id != CommandID::setControlMode && cmd.param_id != ControlMode::oscillate {
        false
    } else {
        enabled
    }
}

/// Applies a command to the oscillation and temperature states and returns
/// what else the command loop has to do (see `spec_action`). Temperature
/// control stays on only for a temperature command, which also sets the
/// temperature to hold; an oscillate command sets the range.
pub fn dispatch(cmd: &CommandMsg, osc: &mut Oscillation, temp: &mut Temperature) -> (a: Action)
    ensures
        a == spec_action(*cmd),
        final(osc).oscillation_enable == oscillation_after(*cmd, old(osc).oscillation_enable),
        final(osc).range == (if cmd.cmd_id == CommandID::setControlMode && cmd.param_id
            == ControlMode::oscillate {
            Some(cmd.param_value)
        } else {
            old(osc).range
        }),
        final(osc).motor() == old(osc).motor(),
        final(temp).enable == (cmd.cmd_id == CommandID::temperatureSpeedMode),
        final(temp).desired == (if cmd.cmd_id == CommandID::temperatureSpeedMode {
            cmd.param_value
        } else {
            old(temp).desired
        }),
{
    let is_set_mode = match cmd.cmd_id {
        CommandID::setControlMode => true,
        _ => false,
    };
    let is_oscillate = match cmd.param_id {
        ControlMode::oscillate => true,
        _ => false,
    };
    if !is_set_mode && !is_oscillate {
        osc.oscillation_enable = false;
    }
    match cmd.cmd_id {
        CommandID::temperatureSpeedMode => {},
        _ => {
            temp.enable = false;
        },
    }
    let v = cmd.param_value;
    match cmd.cmd_id {
        CommandID::setControlMode => match cmd.param_id {
            ControlMode::sleep => Action::Sleep,
            ControlMode::tracking => Action::Track,
            ControlMode::oscillate => {
                osc.range = Some(v);
                osc.oscillation_enable = true;
                Action::Oscillate(v)
            },
            ControlMode::point => if v <= MAX_POINT_DEGREES {
                Action::Point(v)
            } else {
                Action::PointRejected(v)
            },
            ControlMode::night => Action::NightTimer(v),
            ControlMode::invalidParameter => Action::InvalidMode,
        },
        CommandID::percentSpeedMode => if v <= MAX_SPEED_PERCENT {
            Action::Speed(v)
        } else {
            Action::SpeedRejected(v)
        },
        CommandID::temperatureSpeedMode => {
            temp.enable = true;
            temp.desired = v;
            Action::HoldTemperature(v)
        },
        CommandID::invalidCommand => Action::InvalidCommand,
    }
}

/// Law: a speed command for a percentage up to 100 runs the fan at that
/// percentage, and only a percentage above 100 is refused; the same holds
/// for the fan client.
pub proof fn speed_commands(cmd: CommandMsg)
    requires
        cmd.cmd_id == CommandID::percentSpeedMode,
    ensures
        cmd.param_value <= 100 ==> spec_action(cmd) == Action::Speed(cmd.param_value),
        cmd.param_value > 100 ==> spec_action(cmd) == Action::SpeedRejected(cmd.param_value),
        cmd.param_value <= 100 ==> spec_client_action(cmd) == ClientAction::Speed(cmd.param_value),
        cmd.param_value > 100 ==> spec_client_action(cmd) == ClientAction::SpeedRejected(
            cmd.param_value,
        ),
{
}

/// Law: the action of each kind of command: set-mode commands act on
/// their mode with the command's value, a temperature command holds its
/// value, an unknown command does nothing but report.
pub proof fn command_actions(cmd: CommandMsg)
    ensures
        cmd.cmd_id == CommandID::setControlMode && cmd.param_id == ControlMode::sleep
            ==> spec_action(cmd) == Action::Sleep,
        cmd.cmd_id == CommandID::setControlMode && cmd.param_id == ControlMode::tracking
            ==> spec_action(cmd) == Action::Track,
        cmd.cmd_id == CommandID::setControlMode && cmd.param_id == ControlMode::oscillate
            ==> spec_action(cmd) == Action::Oscillate(cmd.param_value),
        cmd.cmd_id == CommandID::setControlMode && cmd.param_id == ControlMode::night
            ==> spec_action(cmd) == Action::NightTimer(cmd.param_value),
        cmd.cmd_id == CommandID::setControlMode && cmd.param_id == ControlMode::invalidParameter
            ==> spec_action(cmd) == Action::InvalidMode,
        cmd.cmd_id == CommandID::temperatureSpeedMode ==> spec_action(cmd)
            == Action::HoldTemperature(cmd.param_value),
        cmd.cmd_id == CommandID::invalidCommand ==> spec_action(cmd) == Action::InvalidCommand,
{
}

/// Law: oscillation is switched on by an oscillate command, switched off by
/// a command that neither sets a control mode nor names the oscillate
/// parameter, and left as it was by every other command.
pub proof fn oscillation_switching(cmd: CommandMsg, enabled: bool)
    ensures
        cmd.cmd_id == CommandID::setControlMode && cmd.param_id == ControlMode::oscillate
            ==> oscillation_after(cmd, enabled),
        cmd.cmd_id != CommandID::setControlMode && cmd.param_id != ControlMode::oscillate
            ==> !oscillation_after(cmd, enabled),
        cmd.cmd_id == CommandID::setControlMode && cmd.param_id != ControlMode::oscillate
            ==> oscillation_after(cmd, enabled) == enabled,
        cmd.cmd_id != CommandID::setControlMode && cmd.param_id == ControlMode::oscillate
            ==> oscillation_after(cmd, enabled) == enabled,
{
}

/// Law: the fan client stops the fan on a sleep command, checks the night
/// timer on a night command, and only announces every other command that
/// is not a speed command.
pub proof fn client_commands(cmd: CommandMsg)
    ensures
        cmd.cmd_id == CommandID::setControlMode && cmd.param_id == ControlMode::sleep
            ==> spec_client_action(cmd) == ClientAction::Sleep,
        cmd.cmd_id == CommandID::setControlMode && cmd.param_id == ControlMode::night
            ==> spec_client_action(cmd) == ClientAction::NightTimer(cmd.param_value),
        cmd.cmd_id == CommandID::setControlMode && cmd.param_id != ControlMode::sleep
            && cmd.param_id != ControlMode::night ==> spec_client_action(cmd) == ClientAction::Announce,
        cmd.cmd_id == CommandID::temperatureSpeedMode || cmd.cmd_id == CommandID::invalidCommand
            ==> spec_client_action(cmd) == ClientAction::Announce,
{
}

/// Law: a point command aims the fan for every angle up to 360 degrees and
/// refuses only angles above 360.
pub proof fn point_commands(cmd: CommandMsg)
    requires
        cmd.cmd_id == CommandID::setControlMode,
        cmd.param_id == ControlMode::point,
    ensures
        cmd.param_value <= 360 ==> spec_action(cmd) == Action::Point(cmd.param_value),
        cmd.param_value > 360 ==> spec_action(cmd) == Action::PointRejected(cmd.param_value),
{
}

/// What the fan client does after a command: it only drives the fan speed
/// and the night timer, and announces everything else.
#[derive(Debug, Clone, Copy, PartialEq, Eq, Structural)]
pub enum ClientAction {
    /// Stop the fan (duty 0).
    Sleep,
    /// Check once whether the night timer of so many minutes has run out.
    NightTimer(u16),
    /// Run the fan at the percentage (at most `MAX_SPEED_PERCENT`).
    Speed(u16),
    /// The percentage is out of range; announce it.
    SpeedRejected(u16),
    /// Nothing to do but announce the command.
    Announce,
}

/// The fan client's action for a command.
pub open spec fn spec_client_action(cmd: CommandMsg) -> ClientAction {
    match cmd.cmd_id {
        CommandID::setControlMode => match cmd.param_id {
            ControlMode::sleep => ClientAction::Sleep,
            ControlMode::night => ClientAction::NightTimer(cmd.param_value),
            _ => ClientAction::Announce,
        },
        CommandID::percentSpeedMode => if cmd.param_value <= MAX_SPEED_PERCENT {
            ClientAction::Speed(cmd.param_value)
        } else {
            ClientAction::SpeedRejected(cmd.param_value)
        },
        _ => ClientAction::Announce,
    }
}

/// The fan client's action for a command (see `spec_client_action`).
pub fn client_action(cmd: &CommandMsg) -> (a: ClientAction)
    ensures
        a == spec_client_action(*cmd),
{
    match cmd.cmd_id {
        CommandID::setControlMode => match cmd.param_id {
            ControlMode::sleep => ClientAction::Sleep,
            ControlMode::night => ClientAction::NightTimer(cmd.param_value),
            _ => ClientAction::Announce,
        },
        CommandID::percentSpeedMode => if cmd.param_value <= MAX_SPEED_PERCENT {
            ClientAction::Speed(cmd.param_value)
        } else {
            ClientAction::SpeedRejected(cmd.param_value)
        },
        _ => ClientAction::Announce,
    }
}

} // verus!
