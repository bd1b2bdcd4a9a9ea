use vstd::prelude::*;

verus! {

/// An eight-byte SETUP packet, as received on the control endpoint.
#[derive(Clone, Copy, Debug, PartialEq, Eq, Structural)]
pub struct SetupPacket {
    pub request_type: u8,
    pub request: u8,
    pub value: u16,
    pub index: u16,
    pub length: u16,
}

pub const KIND_STANDARD: u8 = 0;
pub const KIND_CLASS: u8 = 1;
pub const RECIPIENT_DEVICE: u8 = 0;
pub const RECIPIENT_INTERFACE: u8 = 1;

/// Little-endian value of two bytes.
pub open spec fn le16(lo: u8, hi: u8) -> u16 {
    (lo as int + 256 * (hi as int)) as u16
}

pub open spec fn packet_of(b: Seq<u8>) -> SetupPacket {
    SetupPacket {
        request_type: b[0],
        request: b[1],
        value: le16(b[2], b[3]),
        index: le16(b[4], b[5]),
        length: le16(b[6], b[7]),
    }
}

impl SetupPacket {
    /// Reads a SETUP packet: bmRequestType, bRequest, then wValue, wIndex
    /// and wLength little-endian.
    pub fn parse(b: &[u8; 8]) -> (r: SetupPacket)
        ensures
            r == packet_of(b@),
    {
        SetupPacket {
            request_type: b[0],
            request: b[1],
            value: b[2] as u16 + 256 * (b[3] as u16),
            index: b[4] as u16 + 256 * (b[5] as u16),
            length: b[6] as u16 + 256 * (b[7] as u16),
        }
    }

    pub open spec fn spec_is_in(&self) -> bool {
        self.request_type >= 128
    }

    pub open spec fn spec_kind(&self) -> u8 {
        ((self.request_type / 32) % 4) as u8
    }

    pub open spec fn spec_recipient(&self) -> u8 {
        self.request_type % 32
    }

    /// Data stage runs device to host.
    #[verifier::when_used_as_spec(spec_is_in)]
    pub fn is_in(&self) -> (r: bool)
        ensures
            r == self.spec_is_in(),
    {
        self.request_type >= 128
    }

    /// Standard (0), class (1) or vendor (2) request.
    #[verifier::when_used_as_spec(spec_kind)]
    pub fn kind(&self) -> (r: u8)
        ensures
            r == self.spec_kind(),
    {
        (self.request_type / 32) % 4
    }

    /// Device (0), interface (1), endpoint (2) or other (3).
    #[verifier::when_used_as_spec(spec_recipient)]
    pub fn recipient(&self) -> (r: u8)
        ensures
            r == self.spec_recipient(),
    {
        self.request_type % 32
    }
}

/// What the device answers to one control transfer, as a mathematical value.
pub enum Reply {
    Data(Seq<u8>),
    Accept,
    Stall,
}

/// What the device answers to one control transfer.
#[derive(Debug, PartialEq, Eq)]
pub enum ControlAction {
    /// Send these bytes in the data stage.
    Data(Vec<u8>),
    /// Complete the transfer with a zero-length status stage.
    Accept,
    /// Reject the request with a protocol stall.
    Stall,
}

impl View for ControlAction {
    type V = Reply;

    open spec fn view(&self) -> Reply {
        match self {
            ControlAction::Data(v) => Reply::Data(v@),
            ControlAction::Accept => Reply::Accept,
            ControlAction::Stall => Reply::Stall,
        }
    }
}

impl ControlAction {
    pub fn is_stall(&self) -> (r: bool)
        ensures
            r == (self@ == Reply::Stall),
    {
        match self {
            ControlAction::Stall => true,
            _ => false,
        }
    }
}

/// A short packet must close the data stage: the data does not fill its last
/// packet, or it is shorter than what the host asked for.
pub open spec fn needs_short_packet(len: nat, requested: nat, max_packet: nat) -> bool {
    len % max_packet != 0 || len < requested
}

/// Sizes of the IN packets that carry `len` bytes of a data stage for which
/// the host asked `requested` bytes: full packets of `max_packet` bytes, then
/// a short one (possibly empty) where the transfer needs it to end.
pub fn in_packets(len: usize, requested: usize, max_packet: usize) -> (r: Vec<usize>)
    requires
        max_packet > 0,
    ensures
        r@.len() == len / max_packet + if needs_short_packet(len as nat, requested as nat, max_packet as nat) { 1int } else { 0int },
        forall|i: int| 0 <= i < len / max_packet ==> r@[i] == max_packet,
        needs_short_packet(len as nat, requested as nat, max_packet as nat) ==> r@.last() == len % max_packet,
{
    let full = len / max_packet;
    let mut r: Vec<usize> = Vec::new();
    let mut i: usize = 0;
    while i < full
        invariant
            full == len / max_packet,
            0 <= i <= full,
            r@.len() == i,
            forall|j: int| 0 <= j < i ==> r@[j] == max_packet,
        decreases full - i,
    {
        r.push(max_packet);
        i = i + 1;
    }
    if len % max_packet != 0 || len < requested {
        r.push(len % max_packet);
    }
    r
}

} // verus!
