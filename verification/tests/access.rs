use tcpprobe::error::{ArmError, DebugProbeError, WireProtocol};
use tcpprobe::factory::{DebugProbeSelector, TCPProbeFactory};
use tcpprobe::access::{DpRegisterAddress, RegisterAddress};
use tcpprobe::dispatch::{Event, Progress};
use tcpprobe::probe::TCPProbe;

fn ready_probe() -> TCPProbe {
    TCPProbe::connect(true).expect("an established stream gives a probe")
}

fn dp(address: u8) -> RegisterAddress {
    RegisterAddress::DpRegister(DpRegisterAddress { address, bank: None })
}

#[test]
fn read_register_starts_with_the_matching_command() {
    let mut probe = ready_probe();
    assert_eq!(probe.raw_read_register(dp(0x04), Event::Start), Progress::Write);
    assert_eq!(probe.pending_output(), &[2, 0x00, 0x04]);
    assert_eq!(probe.raw_read_register(dp(0x04), Event::Written(true)), Progress::Read(1));
    let ap = RegisterAddress::ApRegister(0x0c);
    assert_eq!(probe.raw_read_register(ap, Event::Start), Progress::Write);
    assert_eq!(probe.pending_output(), &[2, 0x02, 0x0c]);
}

#[test]
fn read_register_ends_with_the_value() {
    let mut probe = ready_probe();
    let address = dp(0x04);
    assert_eq!(probe.raw_read_register(address, Event::Start), Progress::Write);
    assert_eq!(probe.raw_read_register(address, Event::Written(true)), Progress::Read(1));
    assert_eq!(
        probe.raw_read_register(address, Event::Received(Some(vec![5]))),
        Progress::Read(5)
    );
    assert_eq!(
        probe.raw_read_register(address, Event::Received(Some(vec![0, 0x12, 0x34, 0x56, 0x78]))),
        Progress::Done(Ok(0x1234_5678))
    );
}

#[test]
fn read_register_ends_with_the_failure() {
    let mut probe = ready_probe();
    let address = RegisterAddress::ApRegister(1);
    assert_eq!(probe.raw_read_register(address, Event::Start), Progress::Write);
    assert_eq!(
        probe.raw_read_register(address, Event::Written(false)),
        Progress::Done(Err(ArmError::Probe(DebugProbeError::CouldNotSend)))
    );
    assert_eq!(probe.raw_read_register(address, Event::Start), Progress::Write);
    assert_eq!(probe.raw_read_register(address, Event::Written(true)), Progress::Read(1));
    assert_eq!(
        probe.raw_read_register(address, Event::Received(Some(vec![1]))),
        Progress::Read(1)
    );
    assert_eq!(
        probe.raw_read_register(address, Event::Received(Some(vec![4]))),
        Progress::Done(Err(ArmError::Probe(DebugProbeError::ReadCommandError(4))))
    );
    assert_eq!(
        probe.raw_read_register(address, Event::Received(None)),
        Progress::Done(Err(ArmError::Probe(DebugProbeError::CouldNotRecv)))
    );
}

#[test]
fn write_register_starts_with_the_matching_command() {
    let mut probe = ready_probe();
    assert_eq!(probe.raw_write_register(dp(0x08), 0xdead_beef, Event::Start), Progress::Write);
    assert_eq!(probe.pending_output(), &[6, 0x01, 0x08, 0xde, 0xad, 0xbe, 0xef]);
    assert_eq!(
        probe.raw_write_register(dp(0x08), 0xdead_beef, Event::Written(true)),
        Progress::Read(1)
    );
    let ap = RegisterAddress::ApRegister(0x01);
    assert_eq!(probe.raw_write_register(ap, 0x100, Event::Start), Progress::Write);
    assert_eq!(probe.pending_output(), &[6, 0x03, 0x01, 0x00, 0x00, 0x01, 0x00]);
}

#[test]
fn write_register_ends_with_success_or_failure() {
    let mut probe = ready_probe();
    let address = dp(0x08);
    assert_eq!(
        probe.raw_write_register(address, 7, Event::Received(Some(vec![1, 0]))),
        Progress::Done(Ok(()))
    );
    assert_eq!(
        probe.raw_write_register(address, 7, Event::Received(Some(vec![1, 1]))),
        Progress::Done(Err(ArmError::Probe(DebugProbeError::WriteCommandError(1))))
    );
    assert_eq!(
        probe.raw_write_register(address, 7, Event::Received(Some(vec![0]))),
        Progress::Done(Err(ArmError::Probe(DebugProbeError::MissingStatus)))
    );
}

#[test]
fn swj_sequence_exchange() {
    let mut probe = ready_probe();
    assert_eq!(probe.swj_sequence(16, 0xe79e, Event::Start), Progress::Write);
    assert_eq!(probe.pending_output(), &[10, 0x04, 16, 0, 0, 0, 0, 0, 0, 0xe7, 0x9e]);
    assert_eq!(probe.swj_sequence(16, 0xe79e, Event::Written(true)), Progress::Read(1));
    assert_eq!(
        probe.swj_sequence(16, 0xe79e, Event::Received(Some(vec![1]))),
        Progress::Read(1)
    );
    assert_eq!(
        probe.swj_sequence(16, 0xe79e, Event::Received(Some(vec![0]))),
        Progress::Done(Ok(()))
    );
    assert_eq!(
        probe.swj_sequence(16, 0xe79e, Event::Received(Some(vec![1, 2]))),
        Progress::Done(Err(DebugProbeError::WriteCommandError(2)))
    );
}

#[test]
fn unsupported_operations_fail_and_send_nothing() {
    let mut probe = ready_probe();
    assert_eq!(
        probe.jtag_sequence(8, true, 0xff),
        Err(DebugProbeError::InterfaceNotAvailable { interface_name: "jtag" })
    );
    assert_eq!(
        probe.swj_pins(1, 2, 3),
        Err(DebugProbeError::NotImplemented { function_name: "swj_pins" })
    );
    assert_eq!(probe.enable_swo(), Err(ArmError::NotImplemented("swo")));
    assert_eq!(probe.disable_swo(), Err(ArmError::NotImplemented("swo")));
    assert_eq!(probe.read_swo_timeout(10), Err(ArmError::NotImplemented("swo")));
    assert_eq!(probe.set_speed(4000), Err(DebugProbeError::UnsupportedSpeed(4000)));
    assert_eq!(
        probe.select_protocol(WireProtocol::Jtag),
        Err(DebugProbeError::UnsupportedProtocol(WireProtocol::Jtag))
    );
    assert!(probe.pending_output().is_empty());
}

#[test]
fn scan_chain_is_not_available() {
    let mut probe = ready_probe();
    let chain = vec![probe_rs_target::ScanChainElement { name: None, ir_len: Some(4) }];
    assert_eq!(
        probe.set_scan_chain(chain),
        Err(DebugProbeError::InterfaceNotAvailable { interface_name: "Jtag" })
    );
    assert_eq!(
        probe.scan_chain(),
        Err(DebugProbeError::InterfaceNotAvailable { interface_name: "Jtag" })
    );
}

#[test]
fn fixed_answers() {
    let mut probe = ready_probe();
    assert_eq!(probe.get_name(), "TCP Probe");
    assert_eq!(probe.speed_khz(), 2000);
    assert_eq!(probe.active_protocol(), Some(WireProtocol::Swd));
    assert!(probe.has_arm_interface());
    assert_eq!(probe.select_protocol(WireProtocol::Swd), Ok(()));
    assert_eq!(probe.attach(), Ok(()));
    assert_eq!(probe.detach(), Ok(()));
    assert_eq!(probe.target_reset(), Ok(()));
    assert_eq!(probe.target_reset_assert(), Ok(()));
    assert_eq!(probe.target_reset_deassert(), Ok(()));
    assert_eq!(probe.core_status_notification(), Ok(()));
    assert!(probe.pending_output().is_empty());
}

#[test]
fn factory_opens_by_serial_number() {
    let factory = TCPProbeFactory;
    let selector = DebugProbeSelector {
        vendor_id: 0,
        product_id: 0,
        serial_number: Some("localhost:1337".to_string()),
    };
    assert_eq!(factory.open(&selector), Ok("localhost:1337".to_string()));
    let nameless = DebugProbeSelector { vendor_id: 1, product_id: 2, serial_number: None };
    assert_eq!(
        factory.open(&nameless),
        Err(DebugProbeError::ProbeCouldNotBeCreated(
            tcpprobe::error::ProbeCreationError::NotFound
        ))
    );
}

#[test]
fn factory_lists_one_probe() {
    let factory = TCPProbeFactory;
    assert_eq!(factory.name(), "TCP Probe factory");
    let probes = factory.list_probes();
    assert_eq!(probes.len(), 1);
    assert_eq!(probes[0].identifier, "TCP debug probe");
    assert_eq!(probes[0].vendor_id, 0);
    assert_eq!(probes[0].product_id, 0);
    assert_eq!(probes[0].serial_number.as_deref(), Some("192.168.1.42:1337"));
    assert_eq!(probes[0].hid_interface, None);
}
