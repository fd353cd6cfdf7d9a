//! What the probe offers to a debugger: register access, the bit sequence,
//! and its fixed answers about speed, protocol and the interfaces it lacks.
//!
//! An operation that needs the remote side is one exchange, and proceeds in
//! steps as an exchange does.

use vstd::prelude::*;
use crate::commands::{
    Command, ReadRawAp, ReadRawDp, ReadStatus, SWJSequence, WriteRawAp, WriteRawDp, WriteStatus,
};
use crate::dispatch::{held_after, map_progress, progress, queued_after, Event, Progress};
use crate::error::{ArmError, DebugProbeError, WireProtocol};
use crate::probe::TCPProbe;

verus! {

/// `probe_rs_target::ScanChainElement`, one element of a JTAG scan chain. The
/// probe passes such values through and never looks inside one.
#[verifier::external_type_specification]
#[verifier::external_body]
pub struct ExScanChainElement(probe_rs_target::ScanChainElement);

/// The speed of the probe in kHz, which cannot be changed.
pub const SPEED_KHZ: u32 = 2000;

/// The address of a debug-port register.
#[derive(Clone, Copy, Debug, PartialEq, Eq)]
pub struct DpRegisterAddress {
    /// The register's address byte.
    pub address: u8,
    /// The bank that the register lies in, where it is banked.
    pub bank: Option<u8>,
}

/// The address of a register of the debug port or of an access port.
#[derive(Clone, Copy, Debug, PartialEq, Eq)]
pub enum RegisterAddress {
    DpRegister(DpRegisterAddress),
    ApRegister(u8),
}

/// The payload of the command that reads the register at `address`: a
/// debug-port read for a debug-port register, an access-port read for an
/// access-port register.
pub open spec fn read_request(address: RegisterAddress) -> Seq<u8> {
    match address {
        RegisterAddress::DpRegister(dp) => ReadRawDp(dp.address).encoded(),
        RegisterAddress::ApRegister(ap) => ReadRawAp(ap).encoded(),
    }
}

/// The payload of the command that writes `value` to the register at `address`.
pub open spec fn write_request(address: RegisterAddress, value: u32) -> Seq<u8> {
    match address {
        RegisterAddress::DpRegister(dp) => WriteRawDp(dp.address, value).encoded(),
        RegisterAddress::ApRegister(ap) => WriteRawAp(ap, value).encoded(),
    }
}

/// What the reply to a register read comes to: the value, or the failure.
pub open spec fn read_outcome(reply: Result<ReadStatus, DebugProbeError>) -> Result<u32, ArmError> {
    match reply {
        Ok(status) => Ok(status.0),
        Err(e) => Err(ArmError::Probe(e)),
    }
}

/// What the reply to a register write comes to: success, or the failure.
pub open spec fn write_outcome(reply: Result<WriteStatus, DebugProbeError>) -> Result<
    (),
    ArmError,
> {
    match reply {
        Ok(_) => Ok(()),
        Err(e) => Err(ArmError::Probe(e)),
    }
}

/// What the reply to a bit sequence comes to: success, or the failure.
pub open spec fn sequence_outcome(reply: Result<WriteStatus, DebugProbeError>) -> Result<
    (),
    DebugProbeError,
> {
    match reply {
        Ok(_) => Ok(()),
        Err(e) => Err(e),
    }
}

impl TCPProbe {
    /// One step of reading the register at `address`. The exchange ends with
    /// the value read, or with the failure that the stream or the reply
    /// reports. The request is two bytes long, so it is never refused.
    pub fn raw_read_register(&mut self, address: RegisterAddress, event: Event) -> (p: Progress<
        Result<u32, ArmError>,
    >)
        ensures
            p == map_progress(
                progress::<ReadStatus>(read_request(address), old(self).incoming(), event),
                |reply: Result<ReadStatus, DebugProbeError>| read_outcome(reply),
            ),
            event is Start ==> p == Progress::<Result<u32, ArmError>>::Write,
            final(self).outgoing() == queued_after(
                old(self).outgoing(),
                read_request(address),
                event,
            ),
            final(self).incoming() == held_after(old(self).incoming(), event),
    {
        let step = match address {
            RegisterAddress::DpRegister(dp) => self.do_command(&ReadRawDp(dp.address), event),
            RegisterAddress::ApRegister(ap) => self.do_command(&ReadRawAp(ap), event),
        };
        match step {
            Progress::Write => Progress::Write,
            Progress::Read(n) => Progress::Read(n),
            Progress::Done(Ok(status)) => Progress::Done(Ok(status.0)),
            Progress::Done(Err(e)) => Progress::Done(Err(ArmError::Probe(e))),
        }
    }

    /// One step of writing `value` to the register at `address`. The exchange
    /// ends with success, or with the failure that the stream or the reply
    /// reports.
    pub fn raw_write_register(&mut self, address: RegisterAddress, value: u32, event: Event) -> (p:
        Progress<Result<(), ArmError>>)
        ensures
            p == map_progress(
                progress::<WriteStatus>(write_request(address, value), old(self).incoming(), event),
                |reply: Result<WriteStatus, DebugProbeError>| write_outcome(reply),
            ),
            event is Start ==> p == Progress::<Result<(), ArmError>>::Write,
            final(self).outgoing() == queued_after(
                old(self).outgoing(),
                write_request(address, value),
                event,
            ),
            final(self).incoming() == held_after(old(self).incoming(), event),
    {
        let step = match address {
            RegisterAddress::DpRegister(dp) => self.do_command(
                &WriteRawDp(dp.address, value),
                event,
            ),
            RegisterAddress::ApRegister(ap) => self.do_command(&WriteRawAp(ap, value), event),
        };
        match step {
            Progress::Write => Progress::Write,
            Progress::Read(n) => Progress::Read(n),
            Progress::Done(Ok(_)) => Progress::Done(Ok(())),
            Progress::Done(Err(e)) => Progress::Done(Err(ArmError::Probe(e))),
        }
    }

    /// One step of emitting the low `bit_len` bits of `bits`. The exchange
    /// ends with success, or with the failure that the stream or the reply
    /// reports.
    pub fn swj_sequence(&mut self, bit_len: u8, bits: u64, event: Event) -> (p: Progress<
        Result<(), DebugProbeError>,
    >)
        ensures
            p == map_progress(
                progress::<WriteStatus>(
                    SWJSequence(bit_len, bits).encoded(),
                    old(self).incoming(),
                    event,
                ),
                |reply: Result<WriteStatus, DebugProbeError>| sequence_outcome(reply),
            ),
            event is Start ==> p == Progress::<Result<(), DebugProbeError>>::Write,
            final(self).outgoing() == queued_after(
                old(self).outgoing(),
                SWJSequence(bit_len, bits).encoded(),
                event,
            ),
            final(self).incoming() == held_after(old(self).incoming(), event),
    {
        match self.do_command(&SWJSequence(bit_len, bits), event) {
            Progress::Write => Progress::Write,
            Progress::Read(n) => Progress::Read(n),
            Progress::Done(Ok(_)) => Progress::Done(Ok(())),
            Progress::Done(Err(e)) => Progress::Done(Err(e)),
        }
    }

    /// The remote protocol has no JTAG sequence: the probe has no such
    /// interface, and nothing is queued.
    pub fn jtag_sequence(&mut self, _cycles: u8, _tms: bool, _tdi: u64) -> (r: Result<
        (),
        DebugProbeError,
    >)
        ensures
            r == Err::<(), DebugProbeError>(
                DebugProbeError::InterfaceNotAvailable { interface_name: "jtag" },
            ),
            *final(self) == *old(self),
    {
        Err(DebugProbeError::InterfaceNotAvailable { interface_name: "jtag" })
    }

    /// The remote protocol has no pin control: the function is not
    /// implemented, and nothing is queued.
    pub fn swj_pins(&mut self, _pin_out: u32, _pin_select: u32, _pin_wait: u32) -> (r: Result<
        u32,
        DebugProbeError,
    >)
        ensures
            r == Err::<u32, DebugProbeError>(
                DebugProbeError::NotImplemented { function_name: "swj_pins" },
            ),
            *final(self) == *old(self),
    {
        Err(DebugProbeError::NotImplemented { function_name: "swj_pins" })
    }

    /// Trace capture cannot be switched on.
    pub fn enable_swo(&mut self) -> (r: Result<(), ArmError>)
        ensures
            r == Err::<(), ArmError>(ArmError::NotImplemented("swo")),
            *final(self) == *old(self),
    {
        Err(ArmError::NotImplemented("swo"))
    }

    /// Trace capture cannot be switched off.
    pub fn disable_swo(&mut self) -> (r: Result<(), ArmError>)
        ensures
            r == Err::<(), ArmError>(ArmError::NotImplemented("swo")),
            *final(self) == *old(self),
    {
        Err(ArmError::NotImplemented("swo"))
    }

    /// No trace data can be read, whatever the timeout in milliseconds.
    pub fn read_swo_timeout(&mut self, _timeout_ms: u64) -> (r: Result<Vec<u8>, ArmError>)
        ensures
            r == Err::<Vec<u8>, ArmError>(ArmError::NotImplemented("swo")),
            *final(self) == *old(self),
    {
        Err(ArmError::NotImplemented("swo"))
    }

    /// A change of the core's status needs nothing from the probe.
    pub fn core_status_notification(&mut self) -> (r: Result<(), DebugProbeError>)
        ensures
            r == Ok::<(), DebugProbeError>(()),
            *final(self) == *old(self),
    {
        Ok(())
    }

    /// The probe's name.
    pub fn get_name(&self) -> (name: &'static str)
        ensures
            name@ == "TCP Probe"@,
    {
        "TCP Probe"
    }

    /// The probe's speed in kHz.
    pub fn speed_khz(&self) -> (speed: u32)
        ensures
            speed == SPEED_KHZ,
    {
        SPEED_KHZ
    }

    /// The speed cannot be set: every speed is refused.
    pub fn set_speed(&mut self, speed_khz: u32) -> (r: Result<u32, DebugProbeError>)
        ensures
            r == Err::<u32, DebugProbeError>(DebugProbeError::UnsupportedSpeed(speed_khz)),
            *final(self) == *old(self),
    {
        Err(DebugProbeError::UnsupportedSpeed(speed_khz))
    }

    /// The probe has no JTAG interface, so no scan chain can be set.
    pub fn set_scan_chain(&mut self, _scan_chain: Vec<probe_rs_target::ScanChainElement>) -> (r:
        Result<(), DebugProbeError>)
        ensures
            r == Err::<(), DebugProbeError>(
                DebugProbeError::InterfaceNotAvailable { interface_name: "Jtag" },
            ),
            *final(self) == *old(self),
    {
        Err(DebugProbeError::InterfaceNotAvailable { interface_name: "Jtag" })
    }

    /// The probe has no JTAG interface, so it has no scan chain.
    pub fn scan_chain(&self) -> (r: Result<
        &[probe_rs_target::ScanChainElement],
        DebugProbeError,
    >)
        ensures
            r == Err::<&[probe_rs_target::ScanChainElement], DebugProbeError>(
                DebugProbeError::InterfaceNotAvailable { interface_name: "Jtag" },
            ),
    {
        Err(DebugProbeError::InterfaceNotAvailable { interface_name: "Jtag" })
    }

    /// Attaching needs nothing from the probe.
    pub fn attach(&mut self) -> (r: Result<(), DebugProbeError>)
        ensures
            r == Ok::<(), DebugProbeError>(()),
            *final(self) == *old(self),
    {
        Ok(())
    }

    /// Detaching needs nothing from the probe.
    pub fn detach(&mut self) -> (r: Result<(), DebugProbeError>)
        ensures
            r == Ok::<(), DebugProbeError>(()),
            *final(self) == *old(self),
    {
        Ok(())
    }

    /// A reset of the target is accepted and sends nothing.
    pub fn target_reset(&mut self) -> (r: Result<(), DebugProbeError>)
        ensures
            r == Ok::<(), DebugProbeError>(()),
            *final(self) == *old(self),
    {
        Ok(())
    }

    /// Asserting the target's reset is accepted and sends nothing.
    pub fn target_reset_assert(&mut self) -> (r: Result<(), DebugProbeError>)
        ensures
            r == Ok::<(), DebugProbeError>(()),
            *final(self) == *old(self),
    {
        Ok(())
    }

    /// Deasserting the target's reset is accepted and sends nothing.
    pub fn target_reset_deassert(&mut self) -> (r: Result<(), DebugProbeError>)
        ensures
            r == Ok::<(), DebugProbeError>(()),
            *final(self) == *old(self),
    {
        Ok(())
    }

    /// Only SWD can be selected.
    pub fn select_protocol(&mut self, protocol: WireProtocol) -> (r: Result<(), DebugProbeError>)
        ensures
            r == (match protocol {
                WireProtocol::Swd => Ok::<(), DebugProbeError>(()),
                WireProtocol::Jtag => Err::<(), DebugProbeError>(
                    DebugProbeError::UnsupportedProtocol(WireProtocol::Jtag),
                ),
            }),
            *final(self) == *old(self),
    {
        match protocol {
            WireProtocol::Swd => Ok(()),
            WireProtocol::Jtag => Err(DebugProbeError::UnsupportedProtocol(WireProtocol::Jtag)),
        }
    }

    /// The protocol in use, which is always SWD.
    pub fn active_protocol(&self) -> (p: Option<WireProtocol>)
        ensures
            p == Some(WireProtocol::Swd),
    {
        Some(WireProtocol::Swd)
    }

    /// The probe can drive an ARM debug interface.
    pub fn has_arm_interface(&self) -> (b: bool)
        ensures
            b,
    {
        true
    }
}

} // verus!
