use cdc_blink::cdc::{CdcAcm, LineCoding, TransferError};
use cdc_blink::config::{build, device_descriptor, string_descriptor, DeviceConfig};
use cdc_blink::control::{in_packets, ControlAction, SetupPacket};
use cdc_blink::descriptor::{build_descriptor_set, DescriptorBuffer, DescriptorOverflow};
use cdc_blink::device::{EnumerationState, StartupError, UsbDevice, UsbEvent};

fn utf16(s: &str) -> Vec<u16> {
    s.encode_utf16().collect()
}

fn example_config() -> DeviceConfig {
    let mut c = DeviceConfig::new(0xc0de, 0xcafe);
    c.manufacturer = Some(utf16("Embassy"));
    c.product = Some(utf16("USB-serial example"));
    c.serial_number = Some(utf16("12345678"));
    c.max_power = 50;
    c
}

fn device() -> UsbDevice {
    UsbDevice::new(example_config(), 64, 256).unwrap()
}

fn pkt(request_type: u8, request: u8, value: u16, index: u16, length: u16) -> SetupPacket {
    SetupPacket { request_type, request, value, index, length }
}

fn set_address(a: u16) -> SetupPacket {
    pkt(0x00, 0x05, a, 0, 0)
}

fn set_configuration(n: u16) -> SetupPacket {
    pkt(0x00, 0x09, n, 0, 0)
}

fn configured() -> UsbDevice {
    let mut d = device();
    assert_eq!(d.handle_setup(&set_address(5), &[]), ControlAction::Accept);
    assert_eq!(d.handle_setup(&set_configuration(1), &[]), ControlAction::Accept);
    d
}

const SET_LINE_CODING: (u8, u8) = (0x21, 0x20);
const GET_LINE_CODING: (u8, u8) = (0xA1, 0x21);

#[test]
fn parse_setup_packet() {
    let p = SetupPacket::parse(&[0x80, 0x06, 0x00, 0x01, 0x00, 0x00, 0x40, 0x00]);
    assert_eq!(p, pkt(0x80, 0x06, 0x0100, 0, 64));
    assert!(p.is_in());
    assert_eq!(p.kind(), 0);
    assert_eq!(p.recipient(), 0);
    let q = SetupPacket::parse(&[0x21, 0x20, 0x34, 0x12, 0x02, 0x00, 0x07, 0x00]);
    assert_eq!(q, pkt(0x21, 0x20, 0x1234, 2, 7));
    assert_eq!(q.kind(), 1);
    assert_eq!(q.recipient(), 1);
}

#[test]
fn set_configuration_moves_between_addressed_and_configured() {
    let mut d = device();
    assert_eq!(d.enumeration(), EnumerationState::Default);
    assert_eq!(d.handle_setup(&set_address(7), &[]), ControlAction::Accept);
    assert_eq!(d.enumeration(), EnumerationState::Addressed);
    assert_eq!(d.state().address, 7);
    assert_eq!(d.handle_setup(&set_configuration(1), &[]), ControlAction::Accept);
    assert_eq!(d.enumeration(), EnumerationState::Configured);
    assert!(d.state().class.ep_in.enabled && d.state().class.ep_out.enabled);
    assert_eq!(d.handle_setup(&set_configuration(0), &[]), ControlAction::Accept);
    assert_eq!(d.enumeration(), EnumerationState::Addressed);
    assert!(!d.state().class.ep_in.enabled);
    assert_eq!(d.handle_setup(&set_configuration(2), &[]), ControlAction::Stall);
    assert_eq!(d.enumeration(), EnumerationState::Addressed);
}

#[test]
fn default_state_rejects_all_but_address_and_descriptor() {
    let mut d = device();
    assert_eq!(d.handle_setup(&set_configuration(1), &[]), ControlAction::Stall);
    assert_eq!(d.handle_setup(&pkt(0x80, 0x00, 0, 0, 2), &[]), ControlAction::Stall);
    assert_eq!(d.handle_setup(&pkt(0x80, 0x08, 0, 0, 1), &[]), ControlAction::Stall);
    assert_eq!(d.handle_setup(&pkt(GET_LINE_CODING.0, GET_LINE_CODING.1, 0, 0, 7), &[]), ControlAction::Stall);
    assert_eq!(d.handle_setup(&pkt(0x40, 0x01, 0, 0, 0), &[]), ControlAction::Stall);
    assert_eq!(d.enumeration(), EnumerationState::Default);
    assert!(!d.handle_setup(&pkt(0x80, 0x06, 0x0100, 0, 18), &[]).is_stall());
    assert_eq!(d.enumeration(), EnumerationState::Default);
}

#[test]
fn set_address_rejects_bad_addresses() {
    let mut d = device();
    assert_eq!(d.handle_setup(&set_address(0), &[]), ControlAction::Stall);
    assert_eq!(d.handle_setup(&set_address(128), &[]), ControlAction::Stall);
    assert_eq!(d.enumeration(), EnumerationState::Default);
    assert_eq!(d.handle_setup(&set_address(127), &[]), ControlAction::Accept);
    assert_eq!(d.handle_setup(&set_address(3), &[]), ControlAction::Stall);
    assert_eq!(d.state().address, 127);
}

#[test]
fn line_coding_round_trip() {
    let mut d = configured();
    let payload = [0x80u8, 0x25, 0x00, 0x00, 1, 0, 8];
    let set = pkt(SET_LINE_CODING.0, SET_LINE_CODING.1, 0, 0, 7);
    assert_eq!(d.handle_setup(&set, &payload), ControlAction::Accept);
    assert_eq!(
        d.state().class.line_coding,
        LineCoding { baud: 9600, stop_bits: 1, parity: 0, data_bits: 8 }
    );
    let get = pkt(GET_LINE_CODING.0, GET_LINE_CODING.1, 0, 0, 7);
    assert_eq!(d.handle_setup(&get, &[]), ControlAction::Data(payload.to_vec()));
}

#[test]
fn undersized_line_coding_stalls() {
    let mut d = configured();
    let set = pkt(SET_LINE_CODING.0, SET_LINE_CODING.1, 0, 0, 7);
    assert_eq!(d.handle_setup(&set, &[0x80, 0x25, 0, 0, 1, 0]), ControlAction::Stall);
    assert_eq!(d.state().class.line_coding, LineCoding::new());
    let get_short = pkt(GET_LINE_CODING.0, GET_LINE_CODING.1, 0, 0, 6);
    assert_eq!(d.handle_setup(&get_short, &[]), ControlAction::Stall);
}

#[test]
fn control_line_state_and_unknown_class_request() {
    let mut d = configured();
    assert_eq!(d.handle_setup(&pkt(0x21, 0x22, 0x0003, 0, 0), &[]), ControlAction::Accept);
    assert!(d.state().class.dtr && d.state().class.rts);
    assert_eq!(d.handle_setup(&pkt(0x21, 0x22, 0x0002, 0, 0), &[]), ControlAction::Accept);
    assert!(!d.state().class.dtr && d.state().class.rts);
    assert_eq!(d.handle_setup(&pkt(0x21, 0x23, 0, 0, 0), &[]), ControlAction::Stall);
    assert_eq!(d.handle_setup(&pkt(0x21, 0x22, 0x0001, 1, 0), &[]), ControlAction::Stall);
    assert_eq!(d.enumeration(), EnumerationState::Configured);
}

#[test]
fn bus_reset_restores_defaults_from_every_state() {
    for steps in 0..3 {
        let mut d = device();
        if steps >= 1 {
            d.handle_setup(&set_address(9), &[]);
        }
        if steps >= 2 {
            d.handle_setup(&set_configuration(1), &[]);
            d.handle_setup(&pkt(0x21, 0x20, 0, 0, 7), &[0x00, 0xC2, 0x01, 0x00, 0, 2, 7]);
            d.handle_setup(&pkt(0x21, 0x22, 3, 0, 0), &[]);
            assert_eq!(d.state().class.line_coding.baud, 115200);
        }
        d.bus_reset();
        assert_eq!(d.enumeration(), EnumerationState::Default);
        assert_eq!(d.state().address, 0);
        assert_eq!(d.state().class, CdcAcm::new(64));
        d.bus_reset();
        assert_eq!(d.state().class.line_coding, LineCoding::new());
        assert_eq!(d.enumeration(), EnumerationState::Default);
    }
}

#[test]
fn get_descriptor_device_and_truncation() {
    let mut d = device();
    let expected = vec![
        18, 1, 0x00, 0x02, 0x02, 0x00, 0x00, 64, 0xde, 0xc0, 0xfe, 0xca, 0x00, 0x01, 1, 2, 3, 1,
    ];
    assert_eq!(d.handle_setup(&pkt(0x80, 0x06, 0x0100, 0, 64), &[]), ControlAction::Data(expected.clone()));
    assert_eq!(d.handle_setup(&pkt(0x80, 0x06, 0x0100, 0, 8), &[]), ControlAction::Data(expected[..8].to_vec()));
    assert_eq!(device_descriptor(&example_config()), expected);
}

#[test]
fn get_descriptor_configuration_and_strings() {
    let mut d = device();
    match d.handle_setup(&pkt(0x80, 0x06, 0x0200, 0, 255), &[]) {
        ControlAction::Data(v) => {
            assert_eq!(v.len(), 68);
            assert_eq!(&v[..9], &[9, 2, 68, 0, 2, 1, 0, 0x80, 50]);
            assert_eq!(&v[54..], &[7, 5, 0x01, 0x02, 64, 0, 0, 7, 5, 0x81, 0x02, 64, 0, 0]);
        }
        other => panic!("unexpected {:?}", other),
    }
    assert_eq!(d.handle_setup(&pkt(0x80, 0x06, 0x0300, 0, 255), &[]), ControlAction::Data(vec![4, 3, 0x09, 0x04]));
    assert_eq!(
        d.handle_setup(&pkt(0x80, 0x06, 0x0301, 0x0409, 255), &[]),
        ControlAction::Data(vec![16, 3, b'E', 0, b'm', 0, b'b', 0, b'a', 0, b's', 0, b's', 0, b'y', 0])
    );
    assert_eq!(d.handle_setup(&pkt(0x80, 0x06, 0x0304, 0x0409, 255), &[]), ControlAction::Stall);
    assert_eq!(d.handle_setup(&pkt(0x80, 0x06, 0x0700, 0, 255), &[]), ControlAction::Stall);
}

#[test]
fn string_descriptor_limits() {
    assert_eq!(string_descriptor(&[]), Some(vec![2, 3]));
    assert_eq!(string_descriptor(&[0x20AC]), Some(vec![4, 3, 0xAC, 0x20]));
    assert_eq!(string_descriptor(&vec![0x41u16; 126]).map(|v| v.len()), Some(254));
    assert_eq!(string_descriptor(&vec![0x41u16; 127]), None);
}

#[test]
fn get_status_and_configuration_after_address() {
    let mut d = device();
    d.handle_setup(&set_address(1), &[]);
    assert_eq!(d.handle_setup(&pkt(0x80, 0x00, 0, 0, 2), &[]), ControlAction::Data(vec![0, 0]));
    assert_eq!(d.handle_setup(&pkt(0x80, 0x08, 0, 0, 1), &[]), ControlAction::Data(vec![0]));
    d.handle_setup(&set_configuration(1), &[]);
    assert_eq!(d.handle_setup(&pkt(0x80, 0x08, 0, 0, 1), &[]), ControlAction::Data(vec![1]));
}

#[test]
fn descriptor_set_fits_exactly_or_overflows() {
    let fits: Vec<Vec<u8>> = vec![vec![1u8; 200], vec![2u8; 56]];
    let b = build_descriptor_set(&fits, 256).unwrap();
    assert_eq!(b.len(), 256);
    assert_eq!(&b.bytes()[198..202], &[1, 1, 2, 2]);
    let over: Vec<Vec<u8>> = vec![vec![1u8; 200], vec![2u8; 57]];
    for _ in 0..3 {
        assert!(matches!(build_descriptor_set(&over, 256), Err(DescriptorOverflow)));
    }
}

#[test]
fn descriptor_write_is_all_or_nothing() {
    let mut b = DescriptorBuffer::new(10);
    assert_eq!(b.write(&[1, 2, 3, 4, 5, 6]), Ok(()));
    assert_eq!(b.write(&[7, 8, 9, 10, 11]), Err(DescriptorOverflow));
    assert_eq!(b.bytes(), &[1, 2, 3, 4, 5, 6]);
    assert_eq!(b.write(&[7, 8, 9, 10]), Ok(()));
    assert_eq!(b.len(), 10);
    assert_eq!(b.capacity(), 10);
}

#[test]
fn startup_fails_when_configuration_overflows() {
    assert!(matches!(UsbDevice::new(example_config(), 64, 67), Err(StartupError::DescriptorOverflow)));
    assert!(UsbDevice::new(example_config(), 64, 68).is_ok());
    assert!(matches!(build(&example_config(), 64, 16), Err(DescriptorOverflow)));
}

#[test]
fn data_endpoints_refuse_overlap() {
    let mut d = configured();
    let mut c = d.state().class;
    assert_eq!(c.write_packet(100), Ok(64));
    assert_eq!(c.write_packet(10), Err(TransferError::InProgress));
    c.write_done();
    assert_eq!(c.write_packet(10), Ok(10));
    assert_eq!(c.read_packet(), Ok(64));
    assert_eq!(c.read_packet(), Err(TransferError::InProgress));
    c.read_done();
    assert_eq!(c.read_packet(), Ok(64));
    d.bus_reset();
    let mut idle = d.state().class;
    assert_eq!(idle.write_packet(1), Err(TransferError::Disabled));
    assert_eq!(idle.read_packet(), Err(TransferError::Disabled));
}

#[test]
fn in_packets_end_with_short_packet() {
    assert_eq!(in_packets(68, 255, 64), vec![64, 4]);
    assert_eq!(in_packets(64, 255, 64), vec![64, 0]);
    assert_eq!(in_packets(64, 64, 64), vec![64]);
    assert_eq!(in_packets(0, 0, 64), Vec::<usize>::new());
    assert_eq!(in_packets(18, 18, 8), vec![8, 8, 2]);
}

#[test]
fn line_coding_encoding() {
    let c = LineCoding { baud: 0x0102_0304, stop_bits: 2, parity: 1, data_bits: 7 };
    assert_eq!(c.encode(), vec![4, 3, 2, 1, 2, 1, 7]);
    assert_eq!(LineCoding::decode(&[4, 3, 2, 1, 2, 1, 7, 99]), c);
    assert_eq!(LineCoding::new().encode(), vec![0x40, 0x1f, 0, 0, 0, 0, 8]);
}

#[test]
fn transport_events_drive_the_device() {
    let mut d = device();
    assert_eq!(d.handle_event(&UsbEvent::Setup(set_address(4), vec![])), Some(ControlAction::Accept));
    assert_eq!(d.handle_event(&UsbEvent::Setup(set_configuration(1), vec![])), Some(ControlAction::Accept));
    assert_eq!(d.enumeration(), EnumerationState::Configured);
    assert_eq!(d.write_packet(3), Ok(3));
    assert_eq!(d.write_packet(3), Err(TransferError::InProgress));
    assert_eq!(d.handle_event(&UsbEvent::InComplete), None);
    assert_eq!(d.write_packet(70), Ok(64));
    assert_eq!(d.read_packet(), Ok(64));
    assert_eq!(d.read_packet(), Err(TransferError::InProgress));
    assert_eq!(d.handle_event(&UsbEvent::OutComplete), None);
    assert_eq!(d.read_packet(), Ok(64));
    let set = UsbEvent::Setup(pkt(0x21, 0x20, 0, 0, 7), vec![0x80, 0x25, 0, 0, 0, 0, 8]);
    assert_eq!(d.handle_event(&set), Some(ControlAction::Accept));
    assert_eq!(d.handle_event(&UsbEvent::Reset), None);
    assert_eq!(d.enumeration(), EnumerationState::Default);
    assert_eq!(d.state().class.line_coding, LineCoding::new());
    assert_eq!(d.write_packet(1), Err(TransferError::Disabled));
    assert_eq!(d.read_packet(), Err(TransferError::Disabled));
}
