//! Deciding, for each decoded ARP message, whether to answer it.
use vstd::prelude::*;
use crate::address::{HardwareAddress, ProtocolAddress, broadcast_address};
use crate::arp::{Arp, ArpOp};

verus! {

/// The address this responder claims and the hardware address it gives for it.
#[derive(Debug, Clone, Copy)]
pub struct Identity {
    pub claimed_ip: ProtocolAddress,
    pub advertised_mac: HardwareAddress,
}

/// What to do about a received message.
#[derive(Debug, Clone, Copy, PartialEq, Eq)]
pub enum Action {
    NoAction,
    SendReply(Arp),
}

/// The action for a received message, with a flag raised when the link-layer
/// sender seen by the driver differs from the sender hardware address that the
/// message itself gives (a sign of spoofing or of a misbehaving peer).
#[derive(Debug, Clone, Copy, PartialEq, Eq)]
pub struct Response {
    pub action: Action,
    pub sender_mismatch: bool,
}

/// Requests for the claimed address get a reply from the advertised hardware
/// address; everything else is left unanswered.
pub open spec fn action_for(incoming: Arp, identity: Identity) -> Action {
    if incoming.op == ArpOp::Request && incoming.tpa == identity.claimed_ip {
        Action::SendReply(incoming.reply_to(identity.advertised_mac))
    } else {
        Action::NoAction
    }
}

/// The gratuitous ARP that announces the identity's binding to every host on
/// the link.
pub open spec fn announcement_of(identity: Identity) -> Arp {
    Arp {
        op: ArpOp::Reply,
        sha: identity.advertised_mac,
        spa: identity.claimed_ip,
        tha: broadcast_address(),
        tpa: identity.claimed_ip,
    }
}

/// Decides how to answer `incoming`: a reply when it is a request for the
/// claimed address, no action otherwise.
pub fn classify_and_respond(incoming: &Arp, identity: &Identity) -> (r: Action)
    ensures
        r == action_for(*incoming, *identity),
{
    if incoming.op != ArpOp::Request {
        return Action::NoAction;
    }
    if !(incoming.tpa == identity.claimed_ip) {
        return Action::NoAction;
    }
    assert(incoming.tpa.octets =~= identity.claimed_ip.octets);
    match incoming.reply(identity.advertised_mac) {
        Ok(reply) => Action::SendReply(reply),
        Err(_) => Action::NoAction,
    }
}

/// Decides how to answer `incoming`, received from the link-layer address
/// `observed`, and flags a sender hardware address that differs from it.
pub fn respond(incoming: &Arp, identity: &Identity, observed: &HardwareAddress) -> (r: Response)
    ensures
        r.action == action_for(*incoming, *identity),
        r.sender_mismatch == (observed.bytes@ != incoming.sha.bytes@),
{
    let action = classify_and_respond(incoming, identity);
    let sender_mismatch = !(*observed == incoming.sha);
    Response { action, sender_mismatch }
}

/// Builds the gratuitous ARP reply that announces `identity`: sender and
/// target protocol addresses are both the claimed address, and the target
/// hardware address is broadcast.
pub fn announcement(identity: &Identity) -> (r: Arp)
    ensures
        r == announcement_of(*identity),
{
    Arp {
        op: ArpOp::Reply,
        sha: identity.advertised_mac,
        spa: identity.claimed_ip,
        tha: HardwareAddress::broadcast(),
        tpa: identity.claimed_ip,
    }
}

} // verus!
