//! The Ethernet/IPv4 ARP message and its fixed 28-byte wire layout.
use vstd::prelude::*;
use crate::address::{HardwareAddress, ProtocolAddress};

verus! {

/// Length of an Ethernet/IPv4 ARP message on the wire.
pub const ARP_LEN: usize = 28;

/// The ARP operation: a query or an answer.
#[derive(Debug, Clone, Copy, PartialEq, Eq, Structural)]
pub enum ArpOp {
    Request,
    Reply,
}

/// Why an ARP message could not be decoded or encoded, or a reply not built.
#[derive(Debug, Clone, Copy, PartialEq, Eq, Structural)]
pub enum ArpError {
    /// The input holds fewer than 28 bytes.
    TooShort,
    /// Hardware/protocol type or length is not Ethernet/IPv4.
    UnsupportedAddressFamily,
    /// The opcode is neither Request nor Reply, or a reply was asked of a non-request.
    InvalidOperation,
    /// The destination buffer holds fewer than 28 bytes.
    BufferTooSmall,
}

/// An Ethernet/IPv4 ARP message.
#[derive(Debug, Clone, Copy, PartialEq, Eq)]
pub struct Arp {
    pub op: ArpOp,
    pub sha: HardwareAddress,
    pub spa: ProtocolAddress,
    pub tha: HardwareAddress,
    pub tpa: ProtocolAddress,
}

/// Bytes 0..6 of every Ethernet/IPv4 ARP message: hardware type 1,
/// protocol type 0x0800, hardware length 6, protocol length 4.
pub open spec fn family_header() -> Seq<u8> {
    seq![0x00u8, 0x01u8, 0x08u8, 0x00u8, 0x06u8, 0x04u8]
}

impl ArpOp {
    /// The 16-bit opcode, big-endian.
    pub open spec fn code(self) -> Seq<u8> {
        match self {
            ArpOp::Request => seq![0x00u8, 0x01u8],
            ArpOp::Reply => seq![0x00u8, 0x02u8],
        }
    }
}

/// The operation whose opcode is `hi, lo`, if any.
pub open spec fn op_of_code(hi: u8, lo: u8) -> Option<ArpOp> {
    if hi == 0 && lo == 1 {
        Some(ArpOp::Request)
    } else if hi == 0 && lo == 2 {
        Some(ArpOp::Reply)
    } else {
        None
    }
}

pub open spec fn hardware_at(b: Seq<u8>, i: int) -> HardwareAddress {
    HardwareAddress { bytes: [b[i], b[i + 1], b[i + 2], b[i + 3], b[i + 4], b[i + 5]] }
}

pub open spec fn protocol_at(b: Seq<u8>, i: int) -> ProtocolAddress {
    ProtocolAddress { octets: [b[i], b[i + 1], b[i + 2], b[i + 3]] }
}

/// What decoding `b` gives: the first failed check in order (length, address
/// family, opcode), else the message read at the fixed offsets. Bytes past
/// the 28th are ignored.
pub open spec fn decoded(b: Seq<u8>) -> Result<Arp, ArpError> {
    if b.len() < ARP_LEN {
        Err(ArpError::TooShort)
    } else if b.subrange(0, 6) != family_header() {
        Err(ArpError::UnsupportedAddressFamily)
    } else {
        match op_of_code(b[6], b[7]) {
            None => Err(ArpError::InvalidOperation),
            Some(op) => Ok(
                Arp {
                    op,
                    sha: hardware_at(b, 8),
                    spa: protocol_at(b, 14),
                    tha: hardware_at(b, 18),
                    tpa: protocol_at(b, 24),
                },
            ),
        }
    }
}

/// Copies `src` into `buf` starting at `at`, leaving the other bytes alone.
fn put_bytes(buf: &mut [u8], at: usize, src: &[u8])
    requires
        at + src@.len() <= old(buf)@.len(),
    ensures
        final(buf)@ == old(buf)@.subrange(0, at as int) + src@ + old(buf)@.subrange(
            at + src@.len(),
            old(buf)@.len() as int,
        ),
{
    let ghost before = buf@;
    let n: usize = buf.len();
    let mut k: usize = 0;
    while k < src.len()
        invariant
            at + src@.len() <= before.len(),
            buf@.len() == before.len(),
            n == before.len(),
            0 <= k <= src@.len(),
            forall|j: int| 0 <= j < at ==> buf@[j] == before[j],
            forall|j: int| 0 <= j < k ==> buf@[at + j] == src@[j],
            forall|j: int| at + k <= j < before.len() ==> buf@[j] == before[j],
        decreases src@.len() - k,
    {
        buf[at + k] = src[k];
        k = k + 1;
    }
    assert(buf@ =~= before.subrange(0, at as int) + src@ + before.subrange(
        at + src@.len(),
        before.len() as int,
    ));
}

impl Arp {
    /// The 28 bytes that encode this message.
    pub open spec fn wire(self) -> Seq<u8> {
        family_header() + self.op.code() + self.sha.bytes@ + self.spa.octets@ + self.tha.bytes@
            + self.tpa.octets@
    }

    /// The reply to this message when it is a request, announcing that `ha`
    /// holds the requested protocol address.
    pub open spec fn reply_to(self, ha: HardwareAddress) -> Arp {
        Arp { op: ArpOp::Reply, sha: ha, spa: self.tpa, tha: self.sha, tpa: self.spa }
    }

    /// Builds the reply to a request: the sender becomes the target, and
    /// `ha` answers for the requested protocol address. Fails with
    /// `InvalidOperation` when `self` is not a request.
    pub fn reply(&self, ha: HardwareAddress) -> (r: Result<Arp, ArpError>)
        ensures
            self.op == ArpOp::Request ==> r == Ok::<Arp, ArpError>(self.reply_to(ha)),
            self.op != ArpOp::Request ==> r == Err::<Arp, ArpError>(ArpError::InvalidOperation),
    {
        if self.op != ArpOp::Request {
            return Err(ArpError::InvalidOperation);
        }
        Ok(Arp { op: ArpOp::Reply, sha: ha, spa: self.tpa, tha: self.sha, tpa: self.spa })
    }

    /// Writes the 28-byte encoding of this message to the start of `buf` and
    /// returns that prefix; the rest of `buf` is left alone. Fails with
    /// `BufferTooSmall`, writing nothing, when `buf` holds fewer than 28 bytes.
    pub fn fill<'b>(&self, buf: &'b mut [u8]) -> (r: Result<&'b [u8], ArpError>)
        ensures
            old(buf)@.len() < ARP_LEN ==> r == Err::<&[u8], ArpError>(ArpError::BufferTooSmall)
                && final(buf)@ == old(buf)@,
            old(buf)@.len() >= ARP_LEN ==> r is Ok && r->Ok_0@ == self.wire() && final(buf)@
                == self.wire() + old(buf)@.subrange(ARP_LEN as int, old(buf)@.len() as int),
    {
        if buf.len() < ARP_LEN {
            return Err(ArpError::BufferTooSmall);
        }
        let header: [u8; 8] = [
            0x00,
            0x01,
            0x08,
            0x00,
            0x06,
            0x04,
            0x00,
            match self.op {
                ArpOp::Request => 1,
                ArpOp::Reply => 2,
            },
        ];
        put_bytes(buf, 0, header.as_slice());
        put_bytes(buf, 8, self.sha.bytes.as_slice());
        put_bytes(buf, 14, self.spa.octets.as_slice());
        put_bytes(buf, 18, self.tha.bytes.as_slice());
        put_bytes(buf, 24, self.tpa.octets.as_slice());
        assert(buf@ =~= self.wire() + old(buf)@.subrange(ARP_LEN as int, old(buf)@.len() as int));
        let out = vstd::slice::slice_subrange(buf, 0, ARP_LEN);
        assert(out@ =~= self.wire());
        Ok(out)
    }

    /// Decodes an ARP message from the start of `pkt`; trailing bytes are ignored.
    pub fn decode(pkt: &[u8]) -> (r: Result<Arp, ArpError>)
        ensures
            r == decoded(pkt@),
    {
        if pkt.len() < ARP_LEN {
            return Err(ArpError::TooShort);
        }
        if !(pkt[0] == 0x00 && pkt[1] == 0x01 && pkt[2] == 0x08 && pkt[3] == 0x00 && pkt[4] == 0x06
            && pkt[5] == 0x04) {
            proof {
                assert(pkt@.subrange(0, 6) != family_header()) by {
                    if pkt@.subrange(0, 6) == family_header() {
                        assert(pkt@.subrange(0, 6)[0] == pkt@[0]);
                        assert(pkt@.subrange(0, 6)[1] == pkt@[1]);
                        assert(pkt@.subrange(0, 6)[2] == pkt@[2]);
                        assert(pkt@.subrange(0, 6)[3] == pkt@[3]);
                        assert(pkt@.subrange(0, 6)[4] == pkt@[4]);
                        assert(pkt@.subrange(0, 6)[5] == pkt@[5]);
                    }
                }
            }
            return Err(ArpError::UnsupportedAddressFamily);
        }
        assert(pkt@.subrange(0, 6) =~= family_header());
        let op = if pkt[6] == 0 && pkt[7] == 1 {
            ArpOp::Request
        } else if pkt[6] == 0 && pkt[7] == 2 {
            ArpOp::Reply
        } else {
            return Err(ArpError::InvalidOperation);
        };
        let m = Arp {
            op,
            sha: HardwareAddress { bytes: [pkt[8], pkt[9], pkt[10], pkt[11], pkt[12], pkt[13]] },
            spa: ProtocolAddress { octets: [pkt[14], pkt[15], pkt[16], pkt[17]] },
            tha: HardwareAddress { bytes: [pkt[18], pkt[19], pkt[20], pkt[21], pkt[22], pkt[23]] },
            tpa: ProtocolAddress { octets: [pkt[24], pkt[25], pkt[26], pkt[27]] },
        };
        Ok(m)
    }
}

impl ArpError {
    /// The human-readable description of this error.
    pub open spec fn text(self) -> Seq<char> {
        match self {
            ArpError::TooShort => "ARP packet too short"@,
            ArpError::UnsupportedAddressFamily => "Unsupported ARP type (not ethernet/IPv4)"@,
            ArpError::InvalidOperation => "Invalid ARP opcode"@,
            ArpError::BufferTooSmall => "Packet buffer too small"@,
        }
    }

    /// Describes this error for a log line.
    pub fn message(&self) -> (r: &'static str)
        ensures
            r@ == self.text(),
    {
        match self {
            ArpError::TooShort => "ARP packet too short",
            ArpError::UnsupportedAddressFamily => "Unsupported ARP type (not ethernet/IPv4)",
            ArpError::InvalidOperation => "Invalid ARP opcode",
            ArpError::BufferTooSmall => "Packet buffer too small",
        }
    }
}

impl TryFrom<&[u8]> for Arp {
    type Error = ArpError;

    fn try_from(pkt: &[u8]) -> (r: Result<Arp, ArpError>) {
        Arp::decode(pkt)
    }
}

impl vstd::std_specs::convert::TryFromSpecImpl<&[u8]> for Arp {
    open spec fn obeys_try_from_spec() -> bool {
        true
    }

    open spec fn try_from_spec(pkt: &[u8]) -> Result<Arp, ArpError> {
        decoded(pkt@)
    }
}

/// Round trip: decoding the 28 bytes that encode any message gives back that
/// same message.
pub proof fn lemma_round_trip(m: Arp)
    ensures
        decoded(m.wire()) == Ok::<Arp, ArpError>(m),
{
    let b = m.wire();
    assert(b.len() == ARP_LEN);
    assert(b.subrange(0, 6) =~= family_header());
    assert(b[6] == m.op.code()[0] && b[7] == m.op.code()[1]);
    assert(hardware_at(b, 8).bytes =~= m.sha.bytes);
    assert(protocol_at(b, 14).octets =~= m.spa.octets);
    assert(hardware_at(b, 18).bytes =~= m.tha.bytes);
    assert(protocol_at(b, 24).octets =~= m.tpa.octets);
}

/// Re-encoding a successfully decoded input reproduces its first 28 bytes;
/// trailing padding is not reproduced.
pub proof fn lemma_decode_then_encode(b: Seq<u8>)
    requires
        decoded(b) is Ok,
    ensures
        decoded(b)->Ok_0.wire() == b.subrange(0, ARP_LEN as int),
{
    let m = decoded(b)->Ok_0;
    assert(b.subrange(0, 6) == family_header());
    assert(m.wire() =~= b.subrange(0, ARP_LEN as int)) by {
        assert forall|j: int| 0 <= j < 6 implies m.wire()[j] == b[j] by {
            assert(b.subrange(0, 6)[j] == b[j]);
        }
    }
}

/// Every input shorter than 28 bytes, the empty one included, is rejected
/// as too short.
pub proof fn lemma_short_rejected(b: Seq<u8>)
    requires
        b.len() < ARP_LEN,
    ensures
        decoded(b) == Err::<Arp, ArpError>(ArpError::TooShort),
{
}

/// Changing any of bytes 0..6 of a long-enough input to a value other than
/// the Ethernet/IPv4 constant makes decoding fail with
/// `UnsupportedAddressFamily`.
pub proof fn lemma_family_mutation_rejected(b: Seq<u8>, i: int, v: u8)
    requires
        b.len() >= ARP_LEN,
        0 <= i < 6,
        v != family_header()[i],
    ensures
        decoded(b.update(i, v)) == Err::<Arp, ArpError>(ArpError::UnsupportedAddressFamily),
{
    let c = b.update(i, v);
    assert(c.subrange(0, 6)[i] == v);
}

/// With a valid length and address family, opcode 0x0001 decodes as a
/// request, 0x0002 as a reply, and 0x0003 fails with `InvalidOperation`.
pub proof fn lemma_opcode_validation(b: Seq<u8>)
    requires
        b.len() >= ARP_LEN,
        b.subrange(0, 6) == family_header(),
    ensures
        b[6] == 0 && b[7] == 3 ==> decoded(b) == Err::<Arp, ArpError>(ArpError::InvalidOperation),
        b[6] == 0 && b[7] == 1 ==> decoded(b) is Ok && decoded(b)->Ok_0.op == ArpOp::Request,
        b[6] == 0 && b[7] == 2 ==> decoded(b) is Ok && decoded(b)->Ok_0.op == ArpOp::Reply,
{
}

} // verus!
