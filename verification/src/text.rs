//! The failures in words.

use vstd::prelude::*;
use vstd::string::StringExecFns;
use crate::error::{ArmError, DebugProbeError, ProbeCreationError, WireProtocol};

verus! {

/// The character of one decimal digit.
pub open spec fn digit(d: nat) -> char
    recommends
        d < 10,
{
    if d == 0 {
        '0'
    } else if d == 1 {
        '1'
    } else if d == 2 {
        '2'
    } else if d == 3 {
        '3'
    } else if d == 4 {
        '4'
    } else if d == 5 {
        '5'
    } else if d == 6 {
        '6'
    } else if d == 7 {
        '7'
    } else if d == 8 {
        '8'
    } else {
        '9'
    }
}

/// The decimal digits of `n`, without leading zeros.
pub open spec fn decimal(n: nat) -> Seq<char>
    decreases n,
{
    if n < 10 {
        seq![digit(n)]
    } else {
        decimal(n / 10).push(digit(n % 10))
    }
}

fn digit_str(d: u32) -> (s: &'static str)
    requires
        d < 10,
    ensures
        s@ == seq![digit(d as nat)],
{
    proof {
        reveal_strlit("0");
        reveal_strlit("1");
        reveal_strlit("2");
        reveal_strlit("3");
        reveal_strlit("4");
        reveal_strlit("5");
        reveal_strlit("6");
        reveal_strlit("7");
        reveal_strlit("8");
        reveal_strlit("9");
    }
    let s = if d == 0 {
        "0"
    } else if d == 1 {
        "1"
    } else if d == 2 {
        "2"
    } else if d == 3 {
        "3"
    } else if d == 4 {
        "4"
    } else if d == 5 {
        "5"
    } else if d == 6 {
        "6"
    } else if d == 7 {
        "7"
    } else if d == 8 {
        "8"
    } else {
        "9"
    };
    assert(s@ =~= seq![digit(d as nat)]);
    s
}

/// Appends the decimal digits of `n` to `text`.
fn append_decimal(text: &mut String, n: u32)
    ensures
        final(text)@ == old(text)@ + decimal(n as nat),
    decreases n,
{
    if n >= 10 {
        append_decimal(text, n / 10);
    }
    text.append(digit_str(n % 10));
    assert(text@ =~= old(text)@ + decimal(n as nat));
}

impl WireProtocol {
    /// The protocol's name.
    pub open spec fn spec_name(self) -> Seq<char> {
        match self {
            WireProtocol::Swd => "SWD"@,
            WireProtocol::Jtag => "JTAG"@,
        }
    }

    pub fn name(&self) -> (name: &'static str)
        ensures
            name@ == self.spec_name(),
    {
        match self {
            WireProtocol::Swd => "SWD",
            WireProtocol::Jtag => "JTAG",
        }
    }
}

impl ProbeCreationError {
    /// The failure in words.
    pub open spec fn spec_message(self) -> Seq<char> {
        match self {
            ProbeCreationError::NotFound => "probe not found"@,
            ProbeCreationError::CouldNotOpen => "could not open"@,
        }
    }

    pub fn message(&self) -> (text: String)
        ensures
            text@ == self.spec_message(),
    {
        match self {
            ProbeCreationError::NotFound => "probe not found".to_owned(),
            ProbeCreationError::CouldNotOpen => "could not open".to_owned(),
        }
    }
}

impl DebugProbeError {
    /// The failure in words. A status, and a speed, stand in decimal.
    pub open spec fn spec_message(self) -> Seq<char> {
        match self {
            DebugProbeError::MissingStatus => "missing status"@,
            DebugProbeError::ReadCommandError(status) => "read command error: "@ + decimal(
                status as nat,
            ),
            DebugProbeError::WriteCommandError(status) => "write command error: "@ + decimal(
                status as nat,
            ),
            DebugProbeError::InvalidPacketLength => "invalid packet length"@,
            DebugProbeError::CommandTooBig => "command too big"@,
            DebugProbeError::CouldNotSend => "could not send to probe"@,
            DebugProbeError::CouldNotRecv => "could not recv from probe"@,
            DebugProbeError::CouldNotRead => "could not read from probe"@,
            DebugProbeError::InterfaceNotAvailable { interface_name } => "interface not available: "@
                + interface_name@,
            DebugProbeError::NotImplemented { function_name } => "not implemented: "@
                + function_name@,
            DebugProbeError::UnsupportedSpeed(khz) => "unsupported speed in kHz: "@ + decimal(
                khz as nat,
            ),
            DebugProbeError::UnsupportedProtocol(protocol) => "unsupported protocol: "@
                + protocol.spec_name(),
            DebugProbeError::ProbeCouldNotBeCreated(cause) => cause.spec_message(),
        }
    }

    pub fn message(&self) -> (text: String)
        ensures
            text@ == self.spec_message(),
    {
        match self {
            DebugProbeError::MissingStatus => "missing status".to_owned(),
            DebugProbeError::ReadCommandError(status) => {
                let mut text = "read command error: ".to_owned();
                append_decimal(&mut text, *status as u32);
                text
            },
            DebugProbeError::WriteCommandError(status) => {
                let mut text = "write command error: ".to_owned();
                append_decimal(&mut text, *status as u32);
                text
            },
            DebugProbeError::InvalidPacketLength => "invalid packet length".to_owned(),
            DebugProbeError::CommandTooBig => "command too big".to_owned(),
            DebugProbeError::CouldNotSend => "could not send to probe".to_owned(),
            DebugProbeError::CouldNotRecv => "could not recv from probe".to_owned(),
            DebugProbeError::CouldNotRead => "could not read from probe".to_owned(),
            DebugProbeError::InterfaceNotAvailable { interface_name } => {
                let mut text = "interface not available: ".to_owned();
                text.append(interface_name);
                text
            },
            DebugProbeError::NotImplemented { function_name } => {
                let mut text = "not implemented: ".to_owned();
                text.append(function_name);
                text
            },
            DebugProbeError::UnsupportedSpeed(khz) => {
                let mut text = "unsupported speed in kHz: ".to_owned();
                append_decimal(&mut text, *khz);
                text
            },
            DebugProbeError::UnsupportedProtocol(protocol) => {
                let mut text = "unsupported protocol: ".to_owned();
                text.append(protocol.name());
                text
            },
            DebugProbeError::ProbeCouldNotBeCreated(cause) => cause.message(),
        }
    }
}

impl ArmError {
    /// The failure in words.
    pub open spec fn spec_message(self) -> Seq<char> {
        match self {
            ArmError::NotImplemented(feature) => "not implemented: "@ + feature@,
            ArmError::Probe(cause) => cause.spec_message(),
        }
    }

    pub fn message(&self) -> (text: String)
        ensures
            text@ == self.spec_message(),
    {
        match self {
            ArmError::NotImplemented(feature) => {
                let mut text = "not implemented: ".to_owned();
                text.append(feature);
                text
            },
            ArmError::Probe(cause) => cause.message(),
        }
    }
}

} // verus!
