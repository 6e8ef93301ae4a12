//! Messages exchanged between the host and the privileged helper.

use vstd::prelude::*;

use crate::text::{decimal, push_decimal};

verus! {

/// A point-in-time reading of the EC.
#[derive(Clone, Debug)]
pub struct FanStatus {
    pub cpu_temp: u8,
    pub gpu_temp: u8,
    pub fan1_rpm: u32,
    pub fan2_rpm: u32,
    pub cooler_boost: bool,
    pub fan_mode: String,
}

/// A request from the host, one per line.
#[derive(Clone, Debug)]
pub enum Command {
    GetStatus,
    SetCoolerBoost { enabled: bool },
    SetFanSpeed { percent: u8 },
    SetFanMode { mode: String },
    Exit,
}

/// The helper's answer to one request.
#[derive(Clone, Debug)]
pub enum Response {
    Status(FanStatus),
    Ack { message: String },
    Error { message: String },
}

/// The JSON line, without its newline, that carries `c` to the helper.
pub open spec fn wire_command(c: Command) -> Seq<char> {
    match c {
        Command::GetStatus => "{\"cmd\":\"get_status\"}"@,
        Command::SetCoolerBoost { enabled } => "{\"cmd\":\"set_cooler_boost\",\"data\":{\"enabled\":"@
            + (if enabled {
            "true"@
        } else {
            "false"@
        }) + "}}"@,
        Command::SetFanSpeed { percent } => "{\"cmd\":\"set_fan_speed\",\"data\":{\"percent\":"@
            + decimal(percent as nat) + "}}"@,
        Command::SetFanMode { mode } => "{\"cmd\":\"set_fan_mode\",\"data\":{\"mode\":\""@ + mode@
            + "\"}}"@,
        Command::Exit => "{\"cmd\":\"exit\"}"@,
    }
}

/// Encodes a command as one protocol line (newline not included).
pub fn command_line(c: &Command) -> (r: String)
    ensures
        r@ == wire_command(*c),
{
    match c {
        Command::GetStatus => String::from_str("{\"cmd\":\"get_status\"}"),
        Command::SetCoolerBoost { enabled } => {
            let mut s = String::from_str("{\"cmd\":\"set_cooler_boost\",\"data\":{\"enabled\":");
            if *enabled {
                s.append("true");
            } else {
                s.append("false");
            }
            s.append("}}");
            s
        },
        Command::SetFanSpeed { percent } => {
            let mut s = String::from_str("{\"cmd\":\"set_fan_speed\",\"data\":{\"percent\":");
            push_decimal(&mut s, *percent as u64);
            s.append("}}");
            s
        },
        Command::SetFanMode { mode } => {
            let mut s = String::from_str("{\"cmd\":\"set_fan_mode\",\"data\":{\"mode\":\"");
            s.append(mode.as_str());
            s.append("\"}}");
            s
        },
        Command::Exit => String::from_str("{\"cmd\":\"exit\"}"),
    }
}

} // verus!
