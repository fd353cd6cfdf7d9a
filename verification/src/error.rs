//! The failures that the probe reports.

use vstd::prelude::*;

verus! {

/// The wire protocol spoken between the probe and the target.
#[derive(Clone, Copy, Debug, PartialEq, Eq, Structural)]
pub enum WireProtocol {
    Swd,
    Jtag,
}

/// Why no probe could be opened.
#[derive(Clone, Copy, Debug, PartialEq, Eq, Structural)]
pub enum ProbeCreationError {
    /// The selector names no probe.
    NotFound,
    /// The stream to the probe could not be opened.
    CouldNotOpen,
}

/// A failure of one probe operation.
#[derive(Clone, Copy, Debug, PartialEq, Eq)]
pub enum DebugProbeError {
    /// A reply without a status byte.
    MissingStatus,
    /// A reply to a read command with the given nonzero status.
    ReadCommandError(u8),
    /// A reply to a write or sequence command with the given nonzero status.
    WriteCommandError(u8),
    /// A successful reply to a read command whose value is not four bytes long.
    InvalidPacketLength,
    /// A payload longer than the length prefix can say.
    CommandTooBig,
    /// The stream failed while a message was written.
    CouldNotSend,
    /// The stream failed before the length prefix of a message arrived.
    CouldNotRecv,
    /// The stream failed before the whole payload of a message arrived.
    CouldNotRead,
    /// The probe has no such interface.
    InterfaceNotAvailable { interface_name: &'static str },
    /// The probe does not implement the function.
    NotImplemented { function_name: &'static str },
    /// The probe cannot run at the given speed, in kHz.
    UnsupportedSpeed(u32),
    /// The probe does not speak the given protocol.
    UnsupportedProtocol(WireProtocol),
    /// No probe could be opened.
    ProbeCouldNotBeCreated(ProbeCreationError),
}

/// The broad kind of a failure.
#[derive(Clone, Copy, Debug, PartialEq, Eq, Structural)]
pub enum ErrorKind {
    /// The stream could not be opened.
    Connection,
    /// The stream failed while sending or receiving.
    Transport,
    /// The reply was malformed or carried a nonzero status.
    Protocol,
    /// The payload cannot be framed.
    Encoding,
    /// The remote protocol has nothing that stands for the operation.
    CapabilityUnsupported,
}

impl DebugProbeError {
    /// The kind that each failure belongs to.
    pub open spec fn spec_kind(self) -> ErrorKind {
        match self {
            DebugProbeError::MissingStatus
            | DebugProbeError::ReadCommandError(_)
            | DebugProbeError::WriteCommandError(_)
            | DebugProbeError::InvalidPacketLength => ErrorKind::Protocol,
            DebugProbeError::CommandTooBig => ErrorKind::Encoding,
            DebugProbeError::CouldNotSend
            | DebugProbeError::CouldNotRecv
            | DebugProbeError::CouldNotRead => ErrorKind::Transport,
            DebugProbeError::ProbeCouldNotBeCreated(_) => ErrorKind::Connection,
            DebugProbeError::InterfaceNotAvailable { .. }
            | DebugProbeError::NotImplemented { .. }
            | DebugProbeError::UnsupportedSpeed(_)
            | DebugProbeError::UnsupportedProtocol(_) => ErrorKind::CapabilityUnsupported,
        }
    }

    pub fn kind(&self) -> (k: ErrorKind)
        ensures
            k == self.spec_kind(),
    {
        match self {
            DebugProbeError::MissingStatus => ErrorKind::Protocol,
            DebugProbeError::ReadCommandError(_) => ErrorKind::Protocol,
            DebugProbeError::WriteCommandError(_) => ErrorKind::Protocol,
            DebugProbeError::InvalidPacketLength => ErrorKind::Protocol,
            DebugProbeError::CommandTooBig => ErrorKind::Encoding,
            DebugProbeError::CouldNotSend => ErrorKind::Transport,
            DebugProbeError::CouldNotRecv => ErrorKind::Transport,
            DebugProbeError::CouldNotRead => ErrorKind::Transport,
            DebugProbeError::ProbeCouldNotBeCreated(_) => ErrorKind::Connection,
            DebugProbeError::InterfaceNotAvailable { .. } => ErrorKind::CapabilityUnsupported,
            DebugProbeError::NotImplemented { .. } => ErrorKind::CapabilityUnsupported,
            DebugProbeError::UnsupportedSpeed(_) => ErrorKind::CapabilityUnsupported,
            DebugProbeError::UnsupportedProtocol(_) => ErrorKind::CapabilityUnsupported,
        }
    }
}

/// A failure of a register access or of trace capture.
#[derive(Clone, Copy, Debug, PartialEq, Eq)]
pub enum ArmError {
    /// The probe does not implement the named feature.
    NotImplemented(&'static str),
    /// The probe operation under the access failed.
    Probe(DebugProbeError),
}

} // verus!
