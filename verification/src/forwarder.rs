//! The server's forwarding decisions: classify each inbound UDP datagram
//! as handshake, data or noise, and route TUN packets back to the client
//! registered under their destination address.  The surrounding event loop
//! performs the actual socket and TUN I/O and hands every buffer here.

use vstd::prelude::*;
use crate::addr::{ip_of_octets, ipv4_from_octets, spec_endpoint_key, Endpoint};
use crate::codec::{encode_handshake_response, spec_encode_response};
use crate::registry::ClientManager;

verus! {

/// What the first bytes of a UDP datagram say it is.
#[derive(Clone, Copy, PartialEq, Eq, Structural, Debug)]
pub enum DatagramClass {
    /// Starts with the request tag `00 01` and is at least two bytes.
    Handshake,
    /// Starts with `0x45`: an IPv4 packet with a five-word header.
    Data,
    /// Anything else; dropped silently.
    Other,
}

/// The classification of a datagram's bytes.
pub open spec fn spec_classify(b: Seq<u8>) -> DatagramClass {
    if b.len() >= 2 && b[0] == 0u8 && b[1] == 1u8 {
        DatagramClass::Handshake
    } else if b.len() >= 1 && b[0] == 0x45u8 {
        DatagramClass::Data
    } else {
        DatagramClass::Other
    }
}

/// Classifies one inbound UDP datagram.
pub fn classify_datagram(buf: &[u8]) -> (c: DatagramClass)
    ensures
        c == spec_classify(buf@),
{
    if buf.len() >= 2 && buf[0] == 0u8 && buf[1] == 1u8 {
        DatagramClass::Handshake
    } else if buf.len() >= 1 && buf[0] == 0x45u8 {
        DatagramClass::Data
    } else {
        DatagramClass::Other
    }
}

/// What the event loop must do with one inbound UDP datagram.
pub enum UdpAction {
    /// Send this handshake response back to the source endpoint.
    Respond(Vec<u8>),
    /// Write this data packet to the TUN device, byte for byte.
    DeliverToTun(Vec<u8>),
    /// Ignore the datagram.
    Drop,
}

/// The destination address of an IPv4 packet read from the TUN device, if
/// the buffer is long enough to be one (20 bytes) and carries version 4.
pub open spec fn spec_tun_dest(b: Seq<u8>) -> Option<u32> {
    if b.len() >= 20 && b[0] >> 4 == 4u8 {
        Some(ip_of_octets(b[16], b[17], b[18], b[19]))
    } else {
        None
    }
}

/// Decides what to do with one UDP datagram from `src`: a handshake
/// registers the source and earns the encoded response advertising the
/// assigned IP and the default route; a data packet from a registered
/// source is delivered to the TUN device unchanged; everything else, and
/// any handshake that finds the pool exhausted, is dropped.
pub fn handle_udp_datagram(mgr: &mut ClientManager, buf: &[u8], src: Endpoint) -> (a: UdpAction)
    requires
        old(mgr).wf(),
    ensures
        final(mgr).wf(),
        spec_classify(buf@) != DatagramClass::Handshake ==> *final(mgr) == *old(mgr),
        spec_classify(buf@) == DatagramClass::Handshake ==> ClientManager::register_step(
            *old(mgr),
            *final(mgr),
            src,
        ),
        match spec_classify(buf@) {
            DatagramClass::Handshake => match old(mgr).spec_register_result(src) {
                Some(ip) => a matches UdpAction::Respond(resp) && resp@ == spec_encode_response(
                    ip,
                    seq![(0u32, 0u32)],
                ),
                None => a is Drop,
            },
            DatagramClass::Data => {
                if old(mgr).addrs().contains_key(spec_endpoint_key(src)) {
                    a matches UdpAction::DeliverToTun(p) && p@ == buf@
                } else {
                    a is Drop
                }
            },
            DatagramClass::Other => a is Drop,
        },
{
    match classify_datagram(buf) {
        DatagramClass::Handshake => {
            match mgr.register(src) {
                Some(ip) => {
                    let mut routes: Vec<(u32, u32)> = Vec::new();
                    routes.push((0u32, 0u32));
                    proof {
                        assert(routes@ =~= seq![(0u32, 0u32)]);
                    }
                    UdpAction::Respond(encode_handshake_response(ip, &routes))
                },
                None => UdpAction::Drop,
            }
        },
        DatagramClass::Data => {
            if mgr.get_ip(&src).is_some() {
                let mut packet: Vec<u8> = Vec::new();
                packet.extend_from_slice(buf);
                UdpAction::DeliverToTun(packet)
            } else {
                UdpAction::Drop
            }
        },
        DatagramClass::Other => UdpAction::Drop,
    }
}

/// Decides where one packet read from the TUN device goes: if it is IPv4
/// and its destination is a registered tunnel IP, it is sent byte for byte
/// to that client's endpoint; otherwise it is dropped.
pub fn handle_tun_packet(mgr: &ClientManager, buf: &[u8]) -> (r: Option<(Endpoint, Vec<u8>)>)
    ensures
        match spec_tun_dest(buf@) {
            Some(dst) => {
                if mgr.ips().contains_key(dst) {
                    r matches Some((e, p)) && e == mgr.ips()[dst] && p@ == buf@
                } else {
                    r is None
                }
            },
            None => r is None,
        },
{
    if buf.len() >= 20 && buf[0] >> 4 == 4u8 {
        let dst = ipv4_from_octets(buf[16], buf[17], buf[18], buf[19]);
        match mgr.get_addr(dst) {
            Some(e) => {
                let mut packet: Vec<u8> = Vec::new();
                packet.extend_from_slice(buf);
                Some((e, packet))
            },
            None => None,
        }
    } else {
        None
    }
}

} // verus!
