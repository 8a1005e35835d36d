//! Fixed-size address values carried inside ARP messages.
use vstd::prelude::*;

verus! {

/// A 6-byte Ethernet hardware (MAC) address.
#[derive(Debug, Clone, Copy)]
pub struct HardwareAddress {
    pub bytes: [u8; 6],
}

/// A 4-byte IPv4 protocol address.
#[derive(Debug, Clone, Copy)]
pub struct ProtocolAddress {
    pub octets: [u8; 4],
}

/// The all-ones broadcast hardware address `ff:ff:ff:ff:ff:ff`.
pub open spec fn broadcast_address() -> HardwareAddress {
    HardwareAddress { bytes: [0xffu8, 0xffu8, 0xffu8, 0xffu8, 0xffu8, 0xffu8] }
}

impl HardwareAddress {
    pub fn new(bytes: [u8; 6]) -> (r: HardwareAddress)
        ensures
            r.bytes == bytes,
    {
        HardwareAddress { bytes }
    }

    /// The all-ones broadcast address `ff:ff:ff:ff:ff:ff`.
    pub fn broadcast() -> (r: HardwareAddress)
        ensures
            r == broadcast_address(),
    {
        HardwareAddress { bytes: [0xff, 0xff, 0xff, 0xff, 0xff, 0xff] }
    }

    pub fn as_bytes(&self) -> (r: &[u8; 6])
        ensures
            *r == self.bytes,
    {
        &self.bytes
    }
}

impl PartialEq for HardwareAddress {
    fn eq(&self, o: &HardwareAddress) -> (r: bool)
        ensures
            r == (self.bytes@ == o.bytes@),
    {
        let a = &self.bytes;
        let b = &o.bytes;
        let r = a[0] == b[0] && a[1] == b[1] && a[2] == b[2] && a[3] == b[3] && a[4] == b[4]
            && a[5] == b[5];
        proof {
            if r {
                assert(a@ =~= b@);
            }
        }
        r
    }
}

impl vstd::std_specs::cmp::PartialEqSpecImpl for HardwareAddress {
    open spec fn obeys_eq_spec() -> bool {
        true
    }

    open spec fn eq_spec(&self, o: &HardwareAddress) -> bool {
        self.bytes@ == o.bytes@
    }
}

impl Eq for HardwareAddress {}

impl ProtocolAddress {
    pub fn new(octets: [u8; 4]) -> (r: ProtocolAddress)
        ensures
            r.octets == octets,
    {
        ProtocolAddress { octets }
    }

    pub fn octets(&self) -> (r: [u8; 4])
        ensures
            r == self.octets,
    {
        self.octets
    }
}

impl PartialEq for ProtocolAddress {
    fn eq(&self, o: &ProtocolAddress) -> (r: bool)
        ensures
            r == (self.octets@ == o.octets@),
    {
        let a = &self.octets;
        let b = &o.octets;
        let r = a[0] == b[0] && a[1] == b[1] && a[2] == b[2] && a[3] == b[3];
        proof {
            if r {
                assert(a@ =~= b@);
            }
        }
        r
    }
}

impl vstd::std_specs::cmp::PartialEqSpecImpl for ProtocolAddress {
    open spec fn obeys_eq_spec() -> bool {
        true
    }

    open spec fn eq_spec(&self, o: &ProtocolAddress) -> bool {
        self.octets@ == o.octets@
    }
}

impl Eq for ProtocolAddress {}

} // verus!
