use vstd::prelude::*;
use crate::cdc::{cdc_after, cdc_initial, cdc_reply, is_cdc_request, CdcAcm, Endpoint, TransferError};
use crate::config::{
    build, configuration_bytes, device_descriptor_bytes, string_bytes, string_descriptor,
    Descriptors, DeviceConfig, CONFIG_TOTAL_LEN, CONFIGURATION_VALUE, DESC_CONFIGURATION,
    DESC_DEVICE, DESC_STRING,
};
use crate::control::{ControlAction, Reply, SetupPacket, KIND_CLASS, KIND_STANDARD};
use crate::descriptor::DescriptorOverflow;

verus! {

pub const REQ_GET_STATUS: u8 = 0x00;
pub const REQ_SET_ADDRESS: u8 = 0x05;
pub const REQ_GET_DESCRIPTOR: u8 = 0x06;
pub const REQ_GET_CONFIGURATION: u8 = 0x08;
pub const REQ_SET_CONFIGURATION: u8 = 0x09;

/// Where the device stands in enumeration.
#[derive(Clone, Copy, Debug, PartialEq, Eq, Structural)]
pub enum EnumerationState {
    Default,
    Addressed,
    Configured,
}

/// Everything that control requests and bus resets change.
#[derive(Clone, Copy, Debug, PartialEq, Eq, Structural)]
pub struct DeviceState {
    pub enumeration: EnumerationState,
    pub address: u8,
    pub configuration: u8,
    pub class: CdcAcm,
}

/// The state after a bus reset, for a class with `max_packet`-byte endpoints.
pub open spec fn reset_state(max_packet: u16) -> DeviceState {
    DeviceState {
        enumeration: EnumerationState::Default,
        address: 0,
        configuration: 0,
        class: cdc_initial(max_packet),
    }
}

pub open spec fn is_set_address(p: SetupPacket) -> bool {
    p.spec_kind() == KIND_STANDARD && p.request == REQ_SET_ADDRESS && !p.spec_is_in()
}

pub open spec fn is_get_descriptor(p: SetupPacket) -> bool {
    p.spec_kind() == KIND_STANDARD && p.request == REQ_GET_DESCRIPTOR && p.spec_is_in()
}

pub open spec fn is_set_configuration(p: SetupPacket) -> bool {
    p.spec_kind() == KIND_STANDARD && p.request == REQ_SET_CONFIGURATION && !p.spec_is_in()
}

pub open spec fn valid_address(p: SetupPacket) -> bool {
    1 <= p.value <= 127 && p.index == 0 && p.length == 0
}

pub open spec fn with_configured(c: CdcAcm, on: bool) -> CdcAcm {
    CdcAcm {
        ep_in: crate::cdc::Endpoint { enabled: on, busy: false, ..c.ep_in },
        ep_out: crate::cdc::Endpoint { enabled: on, busy: false, ..c.ep_out },
        ..c
    }
}

/// The state after one control transfer with OUT data `data`.
pub open spec fn next_state(s: DeviceState, p: SetupPacket, data: Seq<u8>) -> DeviceState {
    if is_set_address(p) {
        if s.enumeration == EnumerationState::Default && valid_address(p) {
            DeviceState { enumeration: EnumerationState::Addressed, address: p.value as u8, ..s }
        } else {
            s
        }
    } else if is_set_configuration(p) {
        if s.enumeration == EnumerationState::Default {
            s
        } else if p.value == 0 {
            DeviceState {
                enumeration: EnumerationState::Addressed,
                configuration: 0,
                class: with_configured(s.class, false),
                ..s
            }
        } else if p.value == CONFIGURATION_VALUE as u16 {
            DeviceState {
                enumeration: EnumerationState::Configured,
                configuration: CONFIGURATION_VALUE,
                class: with_configured(s.class, true),
                ..s
            }
        } else {
            s
        }
    } else if p.spec_kind() == KIND_CLASS && s.enumeration == EnumerationState::Configured && is_cdc_request(p) {
        DeviceState { class: cdc_after(s.class, p, data), ..s }
    } else {
        s
    }
}

/// The first `n` bytes of `s`, or all of it when shorter.
pub open spec fn truncate(s: Seq<u8>, n: u16) -> Seq<u8> {
    if s.len() <= n { s } else { s.take(n as int) }
}

pub open spec fn string_units(c: DeviceConfig, index: u8) -> Option<Seq<u16>> {
    let v = if index == 1 { c.manufacturer } else if index == 2 { c.product } else if index == 3 { c.serial_number } else { None };
    match v {
        Some(u) => Some(u@),
        None => None,
    }
}

/// The descriptor asked for by `value` (type in the high byte, index in the
/// low byte), if the device has it.
pub open spec fn descriptor_for(c: DeviceConfig, config_desc: Seq<u8>, value: u16) -> Option<Seq<u8>> {
    let t = value / 256;
    let i = value % 256;
    if t == DESC_DEVICE {
        Some(device_descriptor_bytes(c))
    } else if t == DESC_CONFIGURATION && i == 0 {
        Some(config_desc)
    } else if t == DESC_STRING && i == 0 {
        Some(seq![4u8, DESC_STRING, 0x09u8, 0x04u8])
    } else if t == DESC_STRING {
        match string_units(c, i as u8) {
            Some(u) => if u.len() <= 126 { Some(string_bytes(u)) } else { None },
            None => None,
        }
    } else {
        None
    }
}

/// The answer to one control transfer with OUT data `data`.
pub open spec fn reply(s: DeviceState, c: DeviceConfig, config_desc: Seq<u8>, p: SetupPacket, data: Seq<u8>) -> Reply {
    if is_set_address(p) {
        if s.enumeration == EnumerationState::Default && valid_address(p) { Reply::Accept } else { Reply::Stall }
    } else if is_set_configuration(p) {
        if s.enumeration != EnumerationState::Default && (p.value == 0 || p.value == CONFIGURATION_VALUE as u16) {
            Reply::Accept
        } else {
            Reply::Stall
        }
    } else if is_get_descriptor(p) {
        match descriptor_for(c, config_desc, p.value) {
            Some(d) => Reply::Data(truncate(d, p.length)),
            None => Reply::Stall,
        }
    } else if p.spec_kind() == KIND_STANDARD && p.spec_is_in() && p.request == REQ_GET_STATUS {
        if s.enumeration == EnumerationState::Default { Reply::Stall } else { Reply::Data(truncate(seq![0u8, 0u8], p.length)) }
    } else if p.spec_kind() == KIND_STANDARD && p.spec_is_in() && p.request == REQ_GET_CONFIGURATION {
        if s.enumeration == EnumerationState::Default { Reply::Stall } else { Reply::Data(truncate(seq![s.configuration], p.length)) }
    } else if p.spec_kind() == KIND_CLASS && s.enumeration == EnumerationState::Configured && is_cdc_request(p) {
        cdc_reply(s.class, p, data)
    } else {
        Reply::Stall
    }
}

/// Control requests move the enumeration state only along the defined
/// transitions: `SetAddress` with a valid address from `Default` to
/// `Addressed`, `SetConfiguration(1)` from `Addressed` or `Configured` to
/// `Configured`, and `SetConfiguration(0)` from there to `Addressed`. In
/// `Default` every request but `SetAddress` and `GetDescriptor` is stalled.
pub proof fn lemma_enumeration_transitions(
    s: DeviceState,
    c: DeviceConfig,
    config_desc: Seq<u8>,
    p: SetupPacket,
    data: Seq<u8>,
)
    ensures
        ({
            let t = next_state(s, p, data).enumeration;
            t != s.enumeration ==> {
                ||| s.enumeration == EnumerationState::Default && is_set_address(p) && valid_address(p)
                    && t == EnumerationState::Addressed
                ||| s.enumeration != EnumerationState::Default && is_set_configuration(p) && p.value == 1
                    && t == EnumerationState::Configured
                ||| s.enumeration != EnumerationState::Default && is_set_configuration(p) && p.value == 0
                    && t == EnumerationState::Addressed
            }
        }),
        s.enumeration == EnumerationState::Default && !is_set_address(p) && !is_get_descriptor(p)
            ==> reply(s, c, config_desc, p, data) == Reply::Stall,
{
}

/// A bus reset leads to `Default` with the line coding and control lines
/// as at startup, whatever the state before; resetting again changes nothing.
pub proof fn lemma_bus_reset_restores_defaults(max_packet: u16)
    ensures
        reset_state(max_packet).enumeration == EnumerationState::Default,
        reset_state(max_packet).class.line_coding == crate::cdc::default_line_coding(),
        !reset_state(max_packet).class.dtr && !reset_state(max_packet).class.rts,
        reset_state(max_packet).class == cdc_initial(max_packet),
        reset_state(max_packet).class.ep_in.max_packet == max_packet,
{
}

/// In the configured state, `SetLineCoding` with a seven-byte payload
/// followed by `GetLineCoding` answers with exactly those seven bytes.
pub proof fn lemma_set_get_line_coding(
    s: DeviceState,
    c: DeviceConfig,
    config_desc: Seq<u8>,
    set: SetupPacket,
    get: SetupPacket,
    data: Seq<u8>,
    get_data: Seq<u8>,
)
    requires
        s.enumeration == EnumerationState::Configured,
        is_cdc_request(set) && !set.spec_is_in() && set.request == crate::cdc::REQ_SET_LINE_CODING,
        is_cdc_request(get) && get.spec_is_in() && get.request == crate::cdc::REQ_GET_LINE_CODING && get.length == 7,
        data.len() == 7,
    ensures
        next_state(s, set, data).enumeration == EnumerationState::Configured,
        reply(next_state(s, set, data), c, config_desc, get, get_data) == Reply::Data(data),
{
    crate::cdc::lemma_line_coding_bytes_round_trip(data);
}

/// What the USB transport reports when it wakes the USB task.
#[derive(Debug, PartialEq, Eq)]
pub enum UsbEvent {
    /// The host reset the bus.
    Reset,
    /// A control transfer: its SETUP packet and the data of its OUT stage.
    Setup(SetupPacket, Vec<u8>),
    /// The bulk IN transfer in flight has completed.
    InComplete,
    /// The bulk OUT transfer in flight has completed.
    OutComplete,
}

/// Why the device could not be brought up.
#[derive(Clone, Copy, Debug, PartialEq, Eq, Structural)]
pub enum StartupError {
    DescriptorOverflow,
}

/// The USB device: enumeration state, the CDC-ACM class and the descriptors
/// it serves.
pub struct UsbDevice {
    state: DeviceState,
    max_packet: u16,
    config: DeviceConfig,
    descriptors: Descriptors,
}

impl UsbDevice {
    pub closed spec fn spec_config(&self) -> DeviceConfig {
        self.config
    }

    pub closed spec fn spec_state(&self) -> DeviceState {
        self.state
    }

    /// Enumeration state, address, configuration and class state.
    pub fn state(&self) -> (r: DeviceState)
        ensures
            r == self.spec_state(),
    {
        self.state
    }

    pub closed spec fn spec_max_packet(&self) -> u16 {
        self.max_packet
    }

    /// The configuration descriptor set, as served.
    pub closed spec fn config_desc(&self) -> Seq<u8> {
        self.descriptors.configuration.written()
    }

    pub closed spec fn wf(&self) -> bool {
        &&& self.descriptors.configuration.wf()
        &&& self.descriptors.device@ == device_descriptor_bytes(self.config)
        &&& self.config_desc() == configuration_bytes(self.config.max_power, self.max_packet)
    }

    /// Builds the descriptors into a `capacity`-byte buffer and registers a
    /// CDC-ACM class with `max_packet`-byte bulk endpoints.
    pub fn new(config: DeviceConfig, max_packet: u16, capacity: usize) -> (r: Result<UsbDevice, StartupError>)
        ensures
            r.is_ok() == (CONFIG_TOTAL_LEN <= capacity),
            r matches Ok(d) ==> d.wf() && d.spec_state() == reset_state(max_packet) && d.spec_config() == config
                && d.spec_max_packet() == max_packet,
    {
        match build(&config, max_packet, capacity) {
            Ok(descriptors) => {
                let state = DeviceState {
                    enumeration: EnumerationState::Default,
                    address: 0,
                    configuration: 0,
                    class: CdcAcm::new(max_packet),
                };
                Ok(UsbDevice { state, max_packet, config, descriptors })
            },
            Err(DescriptorOverflow) => Err(StartupError::DescriptorOverflow),
        }
    }

    pub fn enumeration(&self) -> (r: EnumerationState)
        ensures
            r == self.spec_state().enumeration,
    {
        self.state.enumeration
    }

    /// A bus reset: back to `Default`, with the class state as at startup.
    pub fn bus_reset(&mut self)
        requires
            old(self).wf(),
        ensures
            final(self).wf(),
            final(self).spec_state() == reset_state(old(self).spec_max_packet()),
            final(self).spec_config() == old(self).spec_config(),
            final(self).spec_max_packet() == old(self).spec_max_packet(),
            final(self).config_desc() == old(self).config_desc(),
    {
        self.state = DeviceState {
            enumeration: EnumerationState::Default,
            address: 0,
            configuration: 0,
            class: CdcAcm::new(self.max_packet),
        };
    }

    /// Services one transport event; for a control transfer, returns what
    /// to answer.
    pub fn handle_event(&mut self, ev: &UsbEvent) -> (r: Option<ControlAction>)
        requires
            old(self).wf(),
        ensures
            final(self).wf(),
            final(self).spec_config() == old(self).spec_config(),
            final(self).spec_max_packet() == old(self).spec_max_packet(),
            final(self).config_desc() == old(self).config_desc(),
            match ev {
                UsbEvent::Reset => r.is_none() && final(self).spec_state() == reset_state(old(self).spec_max_packet()),
                UsbEvent::Setup(p, data) => r matches Some(a) && final(self).spec_state() == next_state(old(self).spec_state(), *p, data@)
                    && a@ == reply(old(self).spec_state(), old(self).spec_config(), old(self).config_desc(), *p, data@),
                UsbEvent::InComplete => r.is_none() && final(self).spec_state() == (DeviceState {
                    class: CdcAcm { ep_in: Endpoint { busy: false, ..old(self).spec_state().class.ep_in }, ..old(self).spec_state().class },
                    ..old(self).spec_state()
                }),
                UsbEvent::OutComplete => r.is_none() && final(self).spec_state() == (DeviceState {
                    class: CdcAcm { ep_out: Endpoint { busy: false, ..old(self).spec_state().class.ep_out }, ..old(self).spec_state().class },
                    ..old(self).spec_state()
                }),
            },
    {
        match ev {
            UsbEvent::Reset => {
                self.bus_reset();
                None
            },
            UsbEvent::Setup(p, data) => Some(self.handle_setup(p, data.as_slice())),
            UsbEvent::InComplete => {
                self.state.class.write_done();
                None
            },
            UsbEvent::OutComplete => {
                self.state.class.read_done();
                None
            },
        }
    }

    /// Submits up to `len` bytes on the bulk IN endpoint; refused while the
    /// device is not configured or a transfer is in flight.
    pub fn write_packet(&mut self, len: usize) -> (r: Result<usize, TransferError>)
        requires
            old(self).wf(),
        ensures
            final(self).wf(),
            final(self).spec_config() == old(self).spec_config(),
            final(self).spec_max_packet() == old(self).spec_max_packet(),
            final(self).config_desc() == old(self).config_desc(),
            ({
                let e = old(self).spec_state().class.ep_in;
                &&& !e.enabled ==> r == Err::<usize, TransferError>(TransferError::Disabled)
                &&& e.enabled && e.busy ==> r == Err::<usize, TransferError>(TransferError::InProgress)
                &&& e.enabled && !e.busy ==> r == Ok::<usize, TransferError>(
                    if len < e.max_packet as usize { len } else { e.max_packet as usize })
                    && final(self).spec_state() == (DeviceState {
                        class: CdcAcm { ep_in: Endpoint { busy: true, ..e }, ..old(self).spec_state().class },
                        ..old(self).spec_state()
                    })
            }),
            r.is_err() ==> final(self).spec_state() == old(self).spec_state(),
    {
        self.state.class.write_packet(len)
    }

    /// Arms the bulk OUT endpoint for one packet; refused while the device
    /// is not configured or a transfer is in flight.
    pub fn read_packet(&mut self) -> (r: Result<usize, TransferError>)
        requires
            old(self).wf(),
        ensures
            final(self).wf(),
            final(self).spec_config() == old(self).spec_config(),
            final(self).spec_max_packet() == old(self).spec_max_packet(),
            final(self).config_desc() == old(self).config_desc(),
            ({
                let e = old(self).spec_state().class.ep_out;
                &&& !e.enabled ==> r == Err::<usize, TransferError>(TransferError::Disabled)
                &&& e.enabled && e.busy ==> r == Err::<usize, TransferError>(TransferError::InProgress)
                &&& e.enabled && !e.busy ==> r == Ok::<usize, TransferError>(e.max_packet as usize)
                    && final(self).spec_state() == (DeviceState {
                        class: CdcAcm { ep_out: Endpoint { busy: true, ..e }, ..old(self).spec_state().class },
                        ..old(self).spec_state()
                    })
            }),
            r.is_err() ==> final(self).spec_state() == old(self).spec_state(),
    {
        self.state.class.read_packet()
    }

    fn descriptor(&self, value: u16) -> (r: Option<Vec<u8>>)
        requires
            self.wf(),
        ensures
            r matches Some(v) ==> descriptor_for(self.config, self.config_desc(), value) == Some(v@),
            r.is_none() ==> descriptor_for(self.config, self.config_desc(), value).is_none(),
    {
        let t = value / 256;
        let i = value % 256;
        if t == DESC_DEVICE as u16 {
            Some(copy_bytes(self.descriptors.device.as_slice()))
        } else if t == DESC_CONFIGURATION as u16 && i == 0 {
            Some(copy_bytes(self.descriptors.configuration.bytes()))
        } else if t == DESC_STRING as u16 && i == 0 {
            let v = vec![4u8, DESC_STRING, 0x09u8, 0x04u8];
            assert(v@ =~= seq![4u8, DESC_STRING, 0x09u8, 0x04u8]);
            Some(v)
        } else if t == DESC_STRING as u16 {
            let units = if i == 1 {
                &self.config.manufacturer
            } else if i == 2 {
                &self.config.product
            } else if i == 3 {
                &self.config.serial_number
            } else {
                &None
            };
            match units {
                Some(u) => string_descriptor(u.as_slice()),
                None => None,
            }
        } else {
            None
        }
    }

    /// Handles one control transfer: its SETUP packet and, for an OUT
    /// request, its data stage. Performs no I/O; says what to answer.
    pub fn handle_setup(&mut self, p: &SetupPacket, data: &[u8]) -> (r: ControlAction)
        requires
            old(self).wf(),
        ensures
            final(self).wf(),
            final(self).spec_state() == next_state(old(self).spec_state(), *p, data@),
            r@ == reply(old(self).spec_state(), old(self).spec_config(), old(self).config_desc(), *p, data@),
            final(self).spec_config() == old(self).spec_config(),
            final(self).spec_max_packet() == old(self).spec_max_packet(),
            final(self).config_desc() == old(self).config_desc(),
    {
        let kind = p.kind();
        if kind == KIND_STANDARD && p.request == REQ_SET_ADDRESS && !p.is_in() {
            if self.state.enumeration == EnumerationState::Default && 1 <= p.value && p.value <= 127
                && p.index == 0 && p.length == 0 {
                self.state.enumeration = EnumerationState::Addressed;
                self.state.address = p.value as u8;
                ControlAction::Accept
            } else {
                ControlAction::Stall
            }
        } else if kind == KIND_STANDARD && p.request == REQ_SET_CONFIGURATION && !p.is_in() {
            if self.state.enumeration == EnumerationState::Default {
                ControlAction::Stall
            } else if p.value == 0 {
                self.state.enumeration = EnumerationState::Addressed;
                self.state.configuration = 0;
                self.state.class.set_configured(false);
                ControlAction::Accept
            } else if p.value == CONFIGURATION_VALUE as u16 {
                self.state.enumeration = EnumerationState::Configured;
                self.state.configuration = CONFIGURATION_VALUE;
                self.state.class.set_configured(true);
                ControlAction::Accept
            } else {
                ControlAction::Stall
            }
        } else if kind == KIND_STANDARD && p.request == REQ_GET_DESCRIPTOR && p.is_in() {
            match self.descriptor(p.value) {
                Some(d) => ControlAction::Data(truncated(d, p.length)),
                None => ControlAction::Stall,
            }
        } else if kind == KIND_STANDARD && p.is_in() && p.request == REQ_GET_STATUS {
            if self.state.enumeration == EnumerationState::Default {
                ControlAction::Stall
            } else {
                let v = vec![0u8, 0u8];
                assert(v@ =~= seq![0u8, 0u8]);
                ControlAction::Data(truncated(v, p.length))
            }
        } else if kind == KIND_STANDARD && p.is_in() && p.request == REQ_GET_CONFIGURATION {
            if self.state.enumeration == EnumerationState::Default {
                ControlAction::Stall
            } else {
                let v = vec![self.state.configuration];
                assert(v@ =~= seq![self.state.configuration]);
                ControlAction::Data(truncated(v, p.length))
            }
        } else if kind == KIND_CLASS && self.state.enumeration == EnumerationState::Configured
            && p.recipient() == crate::control::RECIPIENT_INTERFACE && p.index == crate::cdc::COMM_INTERFACE {
            self.state.class.handle_control(p, data)
        } else {
            ControlAction::Stall
        }
    }
}

/// A copy of `s`.
fn copy_bytes(s: &[u8]) -> (r: Vec<u8>)
    ensures
        r@ == s@,
{
    let mut r: Vec<u8> = Vec::new();
    let mut i: usize = 0;
    while i < s.len()
        invariant
            0 <= i <= s@.len(),
            r@ == s@.take(i as int),
        decreases s@.len() - i,
    {
        r.push(s[i]);
        i = i + 1;
        assert(r@ =~= s@.take(i as int));
    }
    assert(s@.take(i as int) =~= s@);
    r
}

/// Cuts `v` down to the `n` bytes the host asked for.
fn truncated(v: Vec<u8>, n: u16) -> (r: Vec<u8>)
    ensures
        r@ == truncate(v@, n),
{
    let mut v = v;
    if v.len() > n as usize {
        v.truncate(n as usize);
    }
    v
}

} // verus!
