use arp_responder::address::{HardwareAddress, ProtocolAddress};
use arp_responder::arp::{Arp, ArpError, ArpOp};
use arp_responder::responder::{announcement, classify_and_respond, respond, Action, Identity};

fn identity() -> Identity {
    Identity {
        claimed_ip: ProtocolAddress::new([10, 0, 0, 2]),
        advertised_mac: HardwareAddress::new([0xaa, 0xbb, 0xcc, 0xdd, 0xee, 0xff]),
    }
}

fn request(tpa: [u8; 4]) -> Arp {
    Arp {
        op: ArpOp::Request,
        sha: HardwareAddress::new([0x11, 0x22, 0x33, 0x44, 0x55, 0x66]),
        spa: ProtocolAddress::new([10, 0, 0, 1]),
        tha: HardwareAddress::new([0, 0, 0, 0, 0, 0]),
        tpa: ProtocolAddress::new(tpa),
    }
}

fn expected_reply() -> Arp {
    Arp {
        op: ArpOp::Reply,
        sha: HardwareAddress::new([0xaa, 0xbb, 0xcc, 0xdd, 0xee, 0xff]),
        spa: ProtocolAddress::new([10, 0, 0, 2]),
        tha: HardwareAddress::new([0x11, 0x22, 0x33, 0x44, 0x55, 0x66]),
        tpa: ProtocolAddress::new([10, 0, 0, 1]),
    }
}

#[test]
fn request_for_claimed_ip_gets_reply() {
    let action = classify_and_respond(&request([10, 0, 0, 2]), &identity());
    assert_eq!(action, Action::SendReply(expected_reply()));
}

#[test]
fn request_for_other_ip_ignored() {
    let action = classify_and_respond(&request([10, 0, 0, 9]), &identity());
    assert_eq!(action, Action::NoAction);
}

#[test]
fn incoming_reply_ignored() {
    let mut m = request([10, 0, 0, 2]);
    m.op = ArpOp::Reply;
    assert_eq!(classify_and_respond(&m, &identity()), Action::NoAction);
    let other = Arp {
        op: ArpOp::Reply,
        sha: HardwareAddress::new([9, 9, 9, 9, 9, 9]),
        spa: ProtocolAddress::new([10, 0, 0, 2]),
        tha: HardwareAddress::new([0xff; 6]),
        tpa: ProtocolAddress::new([10, 0, 0, 2]),
    };
    assert_eq!(classify_and_respond(&other, &identity()), Action::NoAction);
}

#[test]
fn announcement_shape() {
    let garp = announcement(&identity());
    assert_eq!(
        garp,
        Arp {
            op: ArpOp::Reply,
            sha: HardwareAddress::new([0xaa, 0xbb, 0xcc, 0xdd, 0xee, 0xff]),
            spa: ProtocolAddress::new([10, 0, 0, 2]),
            tha: HardwareAddress::new([0xff, 0xff, 0xff, 0xff, 0xff, 0xff]),
            tpa: ProtocolAddress::new([10, 0, 0, 2]),
        }
    );
}

#[test]
fn reply_encoding_into_buffers() {
    let reply = expected_reply();
    let mut small = [0u8; 10];
    assert_eq!(reply.fill(&mut small), Err(ArpError::BufferTooSmall));
    let mut buf = [0u8; 28];
    let expected: [u8; 28] = [
        0x00, 0x01, 0x08, 0x00, 6, 4, 0, 2, //
        0xaa, 0xbb, 0xcc, 0xdd, 0xee, 0xff, 10, 0, 0, 2, //
        0x11, 0x22, 0x33, 0x44, 0x55, 0x66, 10, 0, 0, 1,
    ];
    assert_eq!(reply.fill(&mut buf), Ok(&expected[..]));
}

#[test]
fn sender_mismatch_flagged_alongside_reply() {
    let req = request([10, 0, 0, 2]);
    let same = respond(&req, &identity(), &HardwareAddress::new([0x11, 0x22, 0x33, 0x44, 0x55, 0x66]));
    assert!(!same.sender_mismatch);
    assert_eq!(same.action, Action::SendReply(expected_reply()));
    let spoofed = respond(&req, &identity(), &HardwareAddress::new([0x11, 0x22, 0x33, 0x44, 0x55, 0x67]));
    assert!(spoofed.sender_mismatch);
    assert_eq!(spoofed.action, Action::SendReply(expected_reply()));
}

#[test]
fn sender_mismatch_without_action() {
    let req = request([10, 0, 0, 9]);
    let r = respond(&req, &identity(), &HardwareAddress::new([1, 1, 1, 1, 1, 1]));
    assert!(r.sender_mismatch);
    assert_eq!(r.action, Action::NoAction);
}
