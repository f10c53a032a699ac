//! The actuation builder: turns an operation into a partial-update actuation
//! command, and renders that command as its wire payload.

use vstd::prelude::*;

use crate::command::Operation;
use crate::tristate::TriState;

verus! {

/// A partial update for the station's two actuators.  `Unknown` means "leave
/// this actuator unchanged", never "set it to false".
#[derive(Clone, Copy, Debug, PartialEq, Eq, Structural)]
pub struct ActuationCommand {
    pub enable_tx_power: TriState,
    pub enable_ptt: TriState,
}

/// The actuation command each operation stands for.  `Help` is not actuated:
/// it is handled entirely by the dispatch core.
pub open spec fn spec_build(op: Operation) -> Option<ActuationCommand> {
    match op {
        Operation::Help => None,
        Operation::Shutdown => Some(
            ActuationCommand { enable_tx_power: TriState::False, enable_ptt: TriState::False },
        ),
        Operation::PowerOn => Some(
            ActuationCommand { enable_tx_power: TriState::True, enable_ptt: TriState::Unknown },
        ),
        Operation::PowerOff => Some(
            ActuationCommand { enable_tx_power: TriState::False, enable_ptt: TriState::Unknown },
        ),
        Operation::PttEnable => Some(
            ActuationCommand { enable_tx_power: TriState::Unknown, enable_ptt: TriState::True },
        ),
        Operation::PttDisable => Some(
            ActuationCommand { enable_tx_power: TriState::Unknown, enable_ptt: TriState::False },
        ),
    }
}

/// Builds the actuation command for an operation other than `Help`, exactly
/// per [`spec_build`]: the builder never infers a value for an actuator the
/// operation does not concern.
pub fn build(op: Operation) -> (r: ActuationCommand)
    requires
        op != Operation::Help,
    ensures
        spec_build(op) == Some(r),
{
    match op {
        Operation::Help => vstd::pervasive::unreached(),
        Operation::Shutdown => ActuationCommand {
            enable_tx_power: TriState::False,
            enable_ptt: TriState::False,
        },
        Operation::PowerOn => ActuationCommand {
            enable_tx_power: TriState::True,
            enable_ptt: TriState::Unknown,
        },
        Operation::PowerOff => ActuationCommand {
            enable_tx_power: TriState::False,
            enable_ptt: TriState::Unknown,
        },
        Operation::PttEnable => ActuationCommand {
            enable_tx_power: TriState::Unknown,
            enable_ptt: TriState::True,
        },
        Operation::PttDisable => ActuationCommand {
            enable_tx_power: TriState::Unknown,
            enable_ptt: TriState::False,
        },
    }
}

/// The wire form of one tri-state actuator value: a JSON boolean, or `null`
/// for "do not change".
pub open spec fn spec_tristate_json(t: TriState) -> Seq<char> {
    match t {
        TriState::True => "true"@,
        TriState::False => "false"@,
        TriState::Unknown => "null"@,
    }
}

/// The wire payload of an actuation command: a JSON object with the two
/// actuator fields in a fixed order, `null` standing for "do not change".
pub open spec fn spec_encode(c: ActuationCommand) -> Seq<char> {
    "{\"enable_tx_power\":"@ + spec_tristate_json(c.enable_tx_power) + ",\"enable_ptt\":"@
        + spec_tristate_json(c.enable_ptt) + "}"@
}

/// The wire form of one tri-state actuator value.
fn tristate_json(t: TriState) -> (r: &'static str)
    ensures
        r@ == spec_tristate_json(t),
{
    match t {
        TriState::True => "true",
        TriState::False => "false",
        TriState::Unknown => "null",
    }
}

/// Renders an actuation command as its wire payload, exactly per
/// [`spec_encode`].
pub fn encode(c: &ActuationCommand) -> (r: String)
    ensures
        r@ == spec_encode(*c),
{
    let mut s = String::from_str("{\"enable_tx_power\":");
    s.append(tristate_json(c.enable_tx_power));
    s.append(",\"enable_ptt\":");
    s.append(tristate_json(c.enable_ptt));
    s.append("}");
    s
}

} // verus!
