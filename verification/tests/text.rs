use tcpprobe::commands::{CommandReply, ReadStatus, WriteStatus};
use tcpprobe::error::{ArmError, DebugProbeError, ProbeCreationError, WireProtocol};

#[test]
fn protocol_failures_in_words() {
    assert_eq!(DebugProbeError::MissingStatus.message(), "missing status");
    assert_eq!(DebugProbeError::InvalidPacketLength.message(), "invalid packet length");
    assert_eq!(DebugProbeError::ReadCommandError(7).message(), "read command error: 7");
    assert_eq!(DebugProbeError::WriteCommandError(1).message(), "write command error: 1");
}

#[test]
fn status_stands_in_decimal() {
    assert_eq!(DebugProbeError::ReadCommandError(9).message(), "read command error: 9");
    assert_eq!(DebugProbeError::ReadCommandError(10).message(), "read command error: 10");
    assert_eq!(DebugProbeError::ReadCommandError(99).message(), "read command error: 99");
    assert_eq!(DebugProbeError::ReadCommandError(100).message(), "read command error: 100");
    assert_eq!(DebugProbeError::ReadCommandError(255).message(), "read command error: 255");
    assert_eq!(DebugProbeError::WriteCommandError(42).message(), "write command error: 42");
    assert_eq!(DebugProbeError::WriteCommandError(208).message(), "write command error: 208");
}

#[test]
fn every_status_is_formatted_as_std_formats_it() {
    for status in 1..=255u8 {
        assert_eq!(
            DebugProbeError::ReadCommandError(status).message(),
            format!("read command error: {}", status)
        );
    }
}

#[test]
fn decode_failures_carry_their_words() {
    assert_eq!(
        ReadStatus::deserialize(&[]).unwrap_err().message(),
        "missing status"
    );
    assert_eq!(
        ReadStatus::deserialize(&[3, 0, 0, 0, 0]).unwrap_err().message(),
        "read command error: 3"
    );
    assert_eq!(
        ReadStatus::deserialize(&[0, 0, 0]).unwrap_err().message(),
        "invalid packet length"
    );
    assert_eq!(
        WriteStatus::deserialize(&[200]).unwrap_err().message(),
        "write command error: 200"
    );
}

#[test]
fn transport_failures_in_words() {
    assert_eq!(DebugProbeError::CommandTooBig.message(), "command too big");
    assert_eq!(DebugProbeError::CouldNotSend.message(), "could not send to probe");
    assert_eq!(DebugProbeError::CouldNotRecv.message(), "could not recv from probe");
    assert_eq!(DebugProbeError::CouldNotRead.message(), "could not read from probe");
}

#[test]
fn connection_failures_in_words() {
    assert_eq!(ProbeCreationError::CouldNotOpen.message(), "could not open");
    assert_eq!(ProbeCreationError::NotFound.message(), "probe not found");
    assert_eq!(
        DebugProbeError::ProbeCouldNotBeCreated(ProbeCreationError::CouldNotOpen).message(),
        "could not open"
    );
}

#[test]
fn unsupported_operations_in_words() {
    assert_eq!(
        DebugProbeError::InterfaceNotAvailable { interface_name: "jtag" }.message(),
        "interface not available: jtag"
    );
    assert_eq!(
        DebugProbeError::NotImplemented { function_name: "swj_pins" }.message(),
        "not implemented: swj_pins"
    );
    assert_eq!(
        DebugProbeError::UnsupportedSpeed(4000).message(),
        "unsupported speed in kHz: 4000"
    );
    assert_eq!(
        DebugProbeError::UnsupportedSpeed(0).message(),
        "unsupported speed in kHz: 0"
    );
    assert_eq!(
        DebugProbeError::UnsupportedSpeed(u32::MAX).message(),
        "unsupported speed in kHz: 4294967295"
    );
    assert_eq!(
        DebugProbeError::UnsupportedProtocol(WireProtocol::Jtag).message(),
        "unsupported protocol: JTAG"
    );
    assert_eq!(WireProtocol::Swd.name(), "SWD");
}

#[test]
fn register_access_failures_in_words() {
    assert_eq!(ArmError::NotImplemented("swo").message(), "not implemented: swo");
    assert_eq!(
        ArmError::Probe(DebugProbeError::CouldNotSend).message(),
        "could not send to probe"
    );
}
