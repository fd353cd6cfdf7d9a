//! Finding and opening the probe.

use vstd::prelude::*;
use crate::error::{DebugProbeError, ProbeCreationError};

verus! {

/// What a caller knows of the probe it wants to open.
#[derive(Clone, Debug, PartialEq, Eq)]
pub struct DebugProbeSelector {
    pub vendor_id: u16,
    pub product_id: u16,
    /// For this probe, the address of the remote side as `host:port`.
    pub serial_number: Option<String>,
}

/// What is known of a probe that can be opened.
#[derive(Clone, Debug, PartialEq, Eq)]
pub struct DebugProbeInfo {
    pub identifier: String,
    pub vendor_id: u16,
    pub product_id: u16,
    /// For this probe, the address of the remote side as `host:port`.
    pub serial_number: Option<String>,
    pub hid_interface: Option<u8>,
}

/// The source of probes that are reached over a stream.
#[derive(Clone, Copy, Debug)]
pub struct TCPProbeFactory;

impl TCPProbeFactory {
    /// The factory's name.
    pub fn name(&self) -> (name: &'static str)
        ensures
            name@ == "TCP Probe factory"@,
    {
        "TCP Probe factory"
    }

    /// The address to connect to for the probe that `selector` names, taken
    /// from its serial number as it stands. Without a serial number no probe
    /// is found.
    pub fn open(&self, selector: &DebugProbeSelector) -> (r: Result<String, DebugProbeError>)
        ensures
            match selector.serial_number {
                Some(address) => r == Ok::<String, DebugProbeError>(address),
                None => r == Err::<String, DebugProbeError>(
                    DebugProbeError::ProbeCouldNotBeCreated(ProbeCreationError::NotFound),
                ),
            },
    {
        match &selector.serial_number {
            Some(address) => Ok(address.clone()),
            None => Err(DebugProbeError::ProbeCouldNotBeCreated(ProbeCreationError::NotFound)),
        }
    }

    /// The probes that can be opened: always the same single entry.
    pub fn list_probes(&self) -> (probes: Vec<DebugProbeInfo>)
        ensures
            probes@.len() == 1,
            probes@[0].identifier@ == "TCP debug probe"@,
            probes@[0].vendor_id == 0,
            probes@[0].product_id == 0,
            probes@[0].serial_number is Some,
            probes@[0].serial_number->Some_0@ == "192.168.1.42:1337"@,
            probes@[0].hid_interface is None,
    {
        let mut probes: Vec<DebugProbeInfo> = Vec::new();
        probes.push(
            DebugProbeInfo {
                identifier: "TCP debug probe".to_owned(),
                vendor_id: 0,
                product_id: 0,
                serial_number: Some("192.168.1.42:1337".to_owned()),
                hid_interface: None,
            },
        );
        probes
    }
}

} // verus!
