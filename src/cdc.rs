use vstd::prelude::*;
use crate::control::{ControlAction, Reply, SetupPacket};

verus! {

pub const REQ_SEND_ENCAPSULATED_COMMAND: u8 = 0x00;
pub const REQ_SET_LINE_CODING: u8 = 0x20;
pub const REQ_GET_LINE_CODING: u8 = 0x21;
pub const REQ_SET_CONTROL_LINE_STATE: u8 = 0x22;
/// Interface number of the communications interface.
pub const COMM_INTERFACE: u16 = 0;
pub const LINE_CODING_LEN: usize = 7;

/// Serial line parameters of the CDC-ACM function.
#[derive(Clone, Copy, Debug, PartialEq, Eq, Structural)]
pub struct LineCoding {
    pub baud: u32,
    pub stop_bits: u8,
    pub parity: u8,
    pub data_bits: u8,
}

pub open spec fn default_line_coding() -> LineCoding {
    LineCoding { baud: 8000, stop_bits: 0, parity: 0, data_bits: 8 }
}

/// The seven-byte wire form: baud rate little-endian, then stop bits,
/// parity and data bits.
pub open spec fn line_coding_bytes(c: LineCoding) -> Seq<u8> {
    seq![
        (c.baud % 256) as u8,
        ((c.baud / 256) % 256) as u8,
        ((c.baud / 65536) % 256) as u8,
        (c.baud / 16777216) as u8,
        c.stop_bits,
        c.parity,
        c.data_bits,
    ]
}

pub open spec fn line_coding_of(b: Seq<u8>) -> LineCoding {
    LineCoding {
        baud: (b[0] as int + 256 * b[1] as int + 65536 * b[2] as int + 16777216 * b[3] as int) as u32,
        stop_bits: b[4],
        parity: b[5],
        data_bits: b[6],
    }
}

impl LineCoding {
    /// The coding in force after reset: 8000 baud, 8 data bits, no parity, one stop bit.
    pub fn new() -> (r: LineCoding)
        ensures
            r == default_line_coding(),
    {
        LineCoding { baud: 8000, stop_bits: 0, parity: 0, data_bits: 8 }
    }

    pub fn encode(&self) -> (r: Vec<u8>)
        ensures
            r@ == line_coding_bytes(*self),
    {
        let b = self.baud;
        let r = vec![
            (b % 256) as u8,
            ((b / 256) % 256) as u8,
            ((b / 65536) % 256) as u8,
            (b / 16777216) as u8,
            self.stop_bits,
            self.parity,
            self.data_bits,
        ];
        assert(r@ =~= line_coding_bytes(*self));
        r
    }

    pub fn decode(b: &[u8]) -> (r: LineCoding)
        requires
            b@.len() >= LINE_CODING_LEN,
        ensures
            r == line_coding_of(b@),
    {
        let baud: u32 = b[0] as u32 + 256 * (b[1] as u32) + 65536 * (b[2] as u32) + 16777216 * (b[3] as u32);
        LineCoding { baud, stop_bits: b[4], parity: b[5], data_bits: b[6] }
    }
}

/// Decoding the wire form of a line coding gives that line coding back.
pub proof fn lemma_line_coding_round_trip(c: LineCoding)
    ensures
        line_coding_of(line_coding_bytes(c)) == c,
{
    let x = c.baud as int;
    assert(x == x % 256 + 256 * ((x / 256) % 256) + 65536 * ((x / 65536) % 256) + 16777216 * (x / 16777216)) by (nonlinear_arith)
        requires 0 <= x < 0x1_0000_0000;
}

/// Encoding the line coding read from seven bytes gives those bytes back.
pub proof fn lemma_line_coding_bytes_round_trip(b: Seq<u8>)
    requires
        b.len() == 7,
    ensures
        line_coding_bytes(line_coding_of(b)) == b,
{
    let (b0, b1, b2, b3) = (b[0] as int, b[1] as int, b[2] as int, b[3] as int);
    let x = b0 + 256 * b1 + 65536 * b2 + 16777216 * b3;
    assert(0 <= x < 0x1_0000_0000) by (nonlinear_arith)
        requires 0 <= b0 < 256, 0 <= b1 < 256, 0 <= b2 < 256, 0 <= b3 < 256, x == b0 + 256 * b1 + 65536 * b2 + 16777216 * b3;
    assert(x % 256 == b0 && (x / 256) % 256 == b1 && (x / 65536) % 256 == b2 && x / 16777216 == b3) by (nonlinear_arith)
        requires 0 <= b0 < 256, 0 <= b1 < 256, 0 <= b2 < 256, 0 <= b3 < 256, x == b0 + 256 * b1 + 65536 * b2 + 16777216 * b3;
    assert(line_coding_bytes(line_coding_of(b)) =~= b);
}

/// Why a data-endpoint transfer was refused.
#[derive(Clone, Copy, Debug, PartialEq, Eq, Structural)]
pub enum TransferError {
    /// The configuration that enables the endpoint is not selected.
    Disabled,
    /// A transfer is already in flight on the endpoint.
    InProgress,
}

/// A bulk data endpoint of the class.
#[derive(Clone, Copy, Debug, PartialEq, Eq, Structural)]
pub struct Endpoint {
    pub address: u8,
    pub max_packet: u16,
    pub enabled: bool,
    pub busy: bool,
}

impl Endpoint {
    pub fn new(address: u8, max_packet: u16) -> (r: Endpoint)
        ensures
            r == (Endpoint { address, max_packet, enabled: false, busy: false }),
    {
        Endpoint { address, max_packet, enabled: false, busy: false }
    }

    /// Starts a transfer of up to `len` bytes; returns how many go in this packet.
    pub fn begin(&mut self, len: usize) -> (r: Result<usize, TransferError>)
        ensures
            !old(self).enabled ==> r == Err::<usize, TransferError>(TransferError::Disabled) && *final(self) == *old(self),
            old(self).enabled && old(self).busy ==> r == Err::<usize, TransferError>(TransferError::InProgress) && *final(self) == *old(self),
            old(self).enabled && !old(self).busy ==> r == Ok::<usize, TransferError>(
                if len < old(self).max_packet as usize { len } else { old(self).max_packet as usize })
                && *final(self) == (Endpoint { busy: true, ..*old(self) }),
    {
        if !self.enabled {
            Err(TransferError::Disabled)
        } else if self.busy {
            Err(TransferError::InProgress)
        } else {
            self.busy = true;
            let m = self.max_packet as usize;
            Ok(if len < m { len } else { m })
        }
    }

    /// The transfer in flight has completed.
    pub fn finish(&mut self)
        ensures
            *final(self) == (Endpoint { busy: false, ..*old(self) }),
    {
        self.busy = false;
    }

    /// Enables or disables the endpoint; either way nothing stays in flight.
    pub fn set_enabled(&mut self, on: bool)
        ensures
            *final(self) == (Endpoint { enabled: on, busy: false, ..*old(self) }),
    {
        self.enabled = on;
        self.busy = false;
    }
}

pub const EP_IN_ADDRESS: u8 = 0x81;
pub const EP_OUT_ADDRESS: u8 = 0x01;

/// State of the CDC-ACM function: line coding, control lines and the two
/// bulk endpoints.
#[derive(Clone, Copy, Debug, PartialEq, Eq, Structural)]
pub struct CdcAcm {
    pub line_coding: LineCoding,
    pub dtr: bool,
    pub rts: bool,
    pub ep_in: Endpoint,
    pub ep_out: Endpoint,
}

pub open spec fn cdc_initial(max_packet: u16) -> CdcAcm {
    CdcAcm {
        line_coding: default_line_coding(),
        dtr: false,
        rts: false,
        ep_in: Endpoint { address: EP_IN_ADDRESS, max_packet, enabled: false, busy: false },
        ep_out: Endpoint { address: EP_OUT_ADDRESS, max_packet, enabled: false, busy: false },
    }
}

/// The request is addressed to the communications interface as a class request.
pub open spec fn is_cdc_request(p: SetupPacket) -> bool {
    p.spec_kind() == crate::control::KIND_CLASS && p.spec_recipient() == crate::control::RECIPIENT_INTERFACE
        && p.index == COMM_INTERFACE
}

/// State after a class request with OUT data `data`.
pub open spec fn cdc_after(s: CdcAcm, p: SetupPacket, data: Seq<u8>) -> CdcAcm {
    if !p.spec_is_in() && p.request == REQ_SET_LINE_CODING && data.len() >= 7 {
        CdcAcm { line_coding: line_coding_of(data), ..s }
    } else if !p.spec_is_in() && p.request == REQ_SET_CONTROL_LINE_STATE {
        CdcAcm { dtr: p.value % 2 == 1, rts: (p.value / 2) % 2 == 1, ..s }
    } else {
        s
    }
}

/// Answer to a class request with OUT data `data`.
pub open spec fn cdc_reply(s: CdcAcm, p: SetupPacket, data: Seq<u8>) -> Reply {
    if p.spec_is_in() {
        if p.request == REQ_GET_LINE_CODING && p.length == 7 {
            Reply::Data(line_coding_bytes(s.line_coding))
        } else {
            Reply::Stall
        }
    } else if p.request == REQ_SEND_ENCAPSULATED_COMMAND
        || (p.request == REQ_SET_LINE_CODING && data.len() >= 7)
        || p.request == REQ_SET_CONTROL_LINE_STATE {
        Reply::Accept
    } else {
        Reply::Stall
    }
}

impl CdcAcm {
    /// The class as registered at startup, both endpoints idle and disabled.
    pub fn new(max_packet: u16) -> (r: CdcAcm)
        ensures
            r == cdc_initial(max_packet),
    {
        CdcAcm {
            line_coding: LineCoding::new(),
            dtr: false,
            rts: false,
            ep_in: Endpoint::new(EP_IN_ADDRESS, max_packet),
            ep_out: Endpoint::new(EP_OUT_ADDRESS, max_packet),
        }
    }

    /// Activates or deactivates both data endpoints with the configuration.
    pub fn set_configured(&mut self, on: bool)
        ensures
            *final(self) == (CdcAcm {
                ep_in: Endpoint { enabled: on, busy: false, ..old(self).ep_in },
                ep_out: Endpoint { enabled: on, busy: false, ..old(self).ep_out },
                ..*old(self)
            }),
    {
        self.ep_in.set_enabled(on);
        self.ep_out.set_enabled(on);
    }

    /// Handles a class request addressed to the communications interface.
    /// `data` is the data stage of an OUT request.
    pub fn handle_control(&mut self, p: &SetupPacket, data: &[u8]) -> (r: ControlAction)
        ensures
            *final(self) == cdc_after(*old(self), *p, data@),
            r@ == cdc_reply(*old(self), *p, data@),
    {
        if p.is_in() {
            if p.request == REQ_GET_LINE_CODING && p.length == 7 {
                ControlAction::Data(self.line_coding.encode())
            } else {
                ControlAction::Stall
            }
        } else if p.request == REQ_SET_LINE_CODING {
            if data.len() >= LINE_CODING_LEN {
                self.line_coding = LineCoding::decode(data);
                ControlAction::Accept
            } else {
                ControlAction::Stall
            }
        } else if p.request == REQ_SET_CONTROL_LINE_STATE {
            self.dtr = p.value % 2 == 1;
            self.rts = (p.value / 2) % 2 == 1;
            ControlAction::Accept
        } else if p.request == REQ_SEND_ENCAPSULATED_COMMAND {
            ControlAction::Accept
        } else {
            ControlAction::Stall
        }
    }

    /// Submits up to `len` bytes for the bulk IN endpoint.
    pub fn write_packet(&mut self, len: usize) -> (r: Result<usize, TransferError>)
        ensures
            !old(self).ep_in.enabled ==> r == Err::<usize, TransferError>(TransferError::Disabled),
            old(self).ep_in.enabled && old(self).ep_in.busy ==> r == Err::<usize, TransferError>(TransferError::InProgress),
            old(self).ep_in.enabled && !old(self).ep_in.busy ==> r == Ok::<usize, TransferError>(
                if len < old(self).ep_in.max_packet as usize { len } else { old(self).ep_in.max_packet as usize })
                && *final(self) == (CdcAcm { ep_in: Endpoint { busy: true, ..old(self).ep_in }, ..*old(self) }),
            r.is_err() ==> *final(self) == *old(self),
    {
        self.ep_in.begin(len)
    }

    /// Arms the bulk OUT endpoint to receive one packet; returns its capacity.
    pub fn read_packet(&mut self) -> (r: Result<usize, TransferError>)
        ensures
            !old(self).ep_out.enabled ==> r == Err::<usize, TransferError>(TransferError::Disabled),
            old(self).ep_out.enabled && old(self).ep_out.busy ==> r == Err::<usize, TransferError>(TransferError::InProgress),
            old(self).ep_out.enabled && !old(self).ep_out.busy ==> r == Ok::<usize, TransferError>(old(self).ep_out.max_packet as usize)
                && *final(self) == (CdcAcm { ep_out: Endpoint { busy: true, ..old(self).ep_out }, ..*old(self) }),
            r.is_err() ==> *final(self) == *old(self),
    {
        let m = self.ep_out.max_packet as usize;
        self.ep_out.begin(m)
    }

    /// The IN transfer in flight has completed.
    pub fn write_done(&mut self)
        ensures
            *final(self) == (CdcAcm { ep_in: Endpoint { busy: false, ..old(self).ep_in }, ..*old(self) }),
    {
        self.ep_in.finish();
    }

    /// The OUT transfer in flight has completed.
    pub fn read_done(&mut self)
        ensures
            *final(self) == (CdcAcm { ep_out: Endpoint { busy: false, ..old(self).ep_out }, ..*old(self) }),
    {
        self.ep_out.finish();
    }
}

} // verus!
