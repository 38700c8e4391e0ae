//! The handshake wire format.
//!
//! Request (client to server), 2 bytes: `00 01`.
//! Response (server to client), `7 + 8*R` bytes:
//! `00 02`, the assigned tunnel IPv4 in network order, a route count `R`,
//! then `R` pairs of destination IPv4 and netmask IPv4.  The client turns
//! each netmask into a prefix length by counting its set bits.

use vstd::prelude::*;
use crate::addr::{
    ip_of_octets, ipv4_from_octets, ipv4_octets, popcount, prefix_len_of_mask,
    spec_octet0, spec_octet1, spec_octet2, spec_octet3,
};

verus! {

broadcast use vstd::string::group_string_axioms;

/// One route the server advertises to the client, as a destination network
/// and a prefix length.
#[derive(Clone, Copy, PartialEq, Eq, Structural, Debug)]
pub struct Route {
    pub destination: u32,
    pub prefix_length: i32,
}

/// What a successful handshake hands the host: the assigned tunnel IP and
/// the routes to install on the TUN interface.
#[derive(Clone, Debug)]
pub struct VpnClientConfig {
    pub client_ip: u32,
    pub routes: Vec<Route>,
}

/// Error type for VPN operations.
#[derive(Clone, Debug)]
pub enum VpnError {
    StartFailed(String),
}

/// The 2-byte handshake request.
pub open spec fn spec_request() -> Seq<u8> {
    seq![0u8, 1u8]
}

/// The eight bytes of one advertised route: destination then netmask.
pub open spec fn spec_route_bytes(r: (u32, u32)) -> Seq<u8> {
    seq![
        spec_octet0(r.0),
        spec_octet1(r.0),
        spec_octet2(r.0),
        spec_octet3(r.0),
        spec_octet0(r.1),
        spec_octet1(r.1),
        spec_octet2(r.1),
        spec_octet3(r.1),
    ]
}

/// The concatenated encodings of a list of routes.
pub open spec fn spec_routes_bytes(rs: Seq<(u32, u32)>) -> Seq<u8>
    decreases rs.len(),
{
    if rs.len() == 0 {
        Seq::empty()
    } else {
        spec_route_bytes(rs[0]) + spec_routes_bytes(rs.drop_first())
    }
}

/// The full response advertising `ip` and `routes`.
pub open spec fn spec_encode_response(ip: u32, routes: Seq<(u32, u32)>) -> Seq<u8> {
    seq![
        0u8,
        2u8,
        spec_octet0(ip),
        spec_octet1(ip),
        spec_octet2(ip),
        spec_octet3(ip),
        routes.len() as u8,
    ] + spec_routes_bytes(routes)
}

/// The route encoding is eight bytes per route.
pub proof fn lemma_routes_bytes_len(rs: Seq<(u32, u32)>)
    ensures
        spec_routes_bytes(rs).len() == 8 * rs.len(),
    decreases rs.len(),
{
    if rs.len() > 0 {
        lemma_routes_bytes_len(rs.drop_first());
    }
}

/// Byte `8*i + j` of the route block is byte `j` of route `i`.
pub proof fn lemma_routes_bytes_index(rs: Seq<(u32, u32)>, i: int, j: int)
    requires
        0 <= i < rs.len(),
        0 <= j < 8,
    ensures
        spec_routes_bytes(rs)[8 * i + j] == spec_route_bytes(rs[i])[j],
    decreases i,
{
    lemma_routes_bytes_len(rs.drop_first());
    if i > 0 {
        lemma_routes_bytes_index(rs.drop_first(), i - 1, j);
        assert(rs.drop_first()[i - 1] == rs[i]);
        assert(8 * (i - 1) + j == 8 * i + j - 8);
    }
}

/// A byte sequence that is a syntactically valid handshake response: the
/// `00 02` tag, at least the fixed seven bytes, and exactly eight more for
/// each advertised route.
pub open spec fn valid_response(b: Seq<u8>) -> bool {
    &&& b.len() >= 7
    &&& b[0] == 0u8
    &&& b[1] == 2u8
    &&& b.len() == 7 + 8 * (b[6] as int)
}

/// The tunnel IP a valid response assigns.
pub open spec fn spec_response_ip(b: Seq<u8>) -> u32 {
    ip_of_octets(b[2], b[3], b[4], b[5])
}

/// The destination of route `i` of a valid response.
pub open spec fn spec_response_dest(b: Seq<u8>, i: int) -> u32 {
    ip_of_octets(b[7 + 8 * i], b[8 + 8 * i], b[9 + 8 * i], b[10 + 8 * i])
}

/// The netmask of route `i` of a valid response.
pub open spec fn spec_response_mask(b: Seq<u8>, i: int) -> u32 {
    ip_of_octets(b[11 + 8 * i], b[12 + 8 * i], b[13 + 8 * i], b[14 + 8 * i])
}

/// Builds the 2-byte handshake request.
pub fn encode_handshake_request() -> (r: Vec<u8>)
    ensures
        r@ == spec_request(),
{
    let mut v: Vec<u8> = Vec::new();
    v.push(0u8);
    v.push(1u8);
    proof {
        assert(v@ =~= spec_request());
    }
    v
}

/// Builds the handshake response that assigns `ip` and advertises
/// `routes`, each a destination and netmask pair.
pub fn encode_handshake_response(ip: u32, routes: &Vec<(u32, u32)>) -> (r: Vec<u8>)
    requires
        routes@.len() <= 255,
    ensures
        r@ == spec_encode_response(ip, routes@),
{
    let mut v: Vec<u8> = Vec::new();
    v.push(0u8);
    v.push(2u8);
    let (a, b, c, d) = ipv4_octets(ip);
    v.push(a);
    v.push(b);
    v.push(c);
    v.push(d);
    v.push(routes.len() as u8);
    proof {
        assert(v@ =~= spec_encode_response(ip, routes@).take(7));
    }
    let mut i: usize = 0;
    while i < routes.len()
        invariant
            i <= routes@.len() <= 255,
            v@ == spec_encode_response(ip, routes@).take(7) + spec_routes_bytes(routes@.take(
                i as int,
            )),
        decreases routes@.len() - i,
    {
        let (dst, mask) = routes[i];
        let (da, db, dc, dd) = ipv4_octets(dst);
        let (ma, mb, mc, md) = ipv4_octets(mask);
        v.push(da);
        v.push(db);
        v.push(dc);
        v.push(dd);
        v.push(ma);
        v.push(mb);
        v.push(mc);
        v.push(md);
        proof {
            lemma_take_one_more_route(routes@, i as int);
            assert(v@ =~= spec_encode_response(ip, routes@).take(7) + spec_routes_bytes(
                routes@.take(i as int + 1),
            ));
        }
        i = i + 1;
    }
    proof {
        assert(routes@.take(routes@.len() as int) =~= routes@);
        assert(v@ =~= spec_encode_response(ip, routes@));
    }
    v
}

/// Appending one route to a prefix extends its encoding by that route's
/// eight bytes.
proof fn lemma_take_one_more_route(rs: Seq<(u32, u32)>, i: int)
    requires
        0 <= i < rs.len(),
    ensures
        spec_routes_bytes(rs.take(i + 1)) == spec_routes_bytes(rs.take(i)) + spec_route_bytes(
            rs[i],
        ),
    decreases i,
{
    if i == 0 {
        assert(rs.take(1).drop_first() =~= Seq::<(u32, u32)>::empty());
        assert(rs.take(1)[0] == rs[0]);
        assert(spec_routes_bytes(Seq::<(u32, u32)>::empty()) == Seq::<u8>::empty());
        assert(spec_routes_bytes(rs.take(1)) == spec_route_bytes(rs[0]) + Seq::<u8>::empty());
        assert(spec_route_bytes(rs[0]) + Seq::<u8>::empty() =~= spec_route_bytes(rs[0]));
        assert(rs.take(0) =~= Seq::<(u32, u32)>::empty());
        assert(spec_routes_bytes(rs.take(0)) + spec_route_bytes(rs[0]) =~= spec_route_bytes(
            rs[0],
        ));
    } else {
        lemma_take_one_more_route(rs.drop_first(), i - 1);
        assert(rs.take(i + 1).drop_first() =~= rs.drop_first().take(i));
        assert(rs.take(i).drop_first() =~= rs.drop_first().take(i - 1));
        assert(rs.drop_first()[i - 1] == rs[i]);
        assert(spec_routes_bytes(rs.take(i + 1)) == spec_route_bytes(rs[0]) + spec_routes_bytes(
            rs.drop_first().take(i),
        ));
        assert(spec_route_bytes(rs[0]) + (spec_routes_bytes(rs.drop_first().take(i - 1))
            + spec_route_bytes(rs[i])) =~= (spec_route_bytes(rs[0]) + spec_routes_bytes(
            rs.drop_first().take(i - 1),
        )) + spec_route_bytes(rs[i]));
    }
}

/// Parses a handshake response.  Exactly the valid responses are accepted;
/// the assigned IP is taken from the fixed header and each netmask becomes
/// the prefix length of one route.  Anything else is rejected as a failed
/// setup.
pub fn parse_handshake_response(buf: &Vec<u8>) -> (r: Result<VpnClientConfig, VpnError>)
    ensures
        r is Ok <==> valid_response(buf@),
        r matches Ok(cfg) ==> {
            &&& cfg.client_ip == spec_response_ip(buf@)
            &&& cfg.routes@.len() == buf@[6] as int
            &&& forall|i: int|
                0 <= i < cfg.routes@.len() ==> (#[trigger] cfg.routes@[i]).destination
                    == spec_response_dest(buf@, i) && cfg.routes@[i].prefix_length == popcount(
                    spec_response_mask(buf@, i),
                )
        },
        r matches Err(e) ==> e matches VpnError::StartFailed(s) && s@ == spec_invalid_msg(),
{
    if buf.len() < 7 || buf[0] != 0u8 || buf[1] != 2u8 {
        return Err(VpnError::StartFailed(invalid_response_msg()));
    }
    let count: usize = buf[6] as usize;
    if buf.len() != 7 + 8 * count {
        return Err(VpnError::StartFailed(invalid_response_msg()));
    }
    let client_ip = ipv4_from_octets(buf[2], buf[3], buf[4], buf[5]);
    let mut routes: Vec<Route> = Vec::new();
    let mut i: usize = 0;
    while i < count
        invariant
            0 <= i <= count,
            buf@.len() == 7 + 8 * count,
            count == buf@[6] as int,
            routes@.len() == i,
            forall|j: int|
                0 <= j < i ==> (#[trigger] routes@[j]).destination == spec_response_dest(buf@, j)
                    && routes@[j].prefix_length == popcount(spec_response_mask(buf@, j)),
        decreases count - i,
    {
        let base: usize = 7 + 8 * i;
        let dest = ipv4_from_octets(buf[base], buf[base + 1], buf[base + 2], buf[base + 3]);
        let mask = ipv4_from_octets(buf[base + 4], buf[base + 5], buf[base + 6], buf[base + 7]);
        let plen = prefix_len_of_mask(mask);
        routes.push(Route { destination: dest, prefix_length: plen as i32 });
        i = i + 1;
    }
    Ok(VpnClientConfig { client_ip, routes })
}

/// The text of the rejection a malformed response earns.
pub open spec fn spec_invalid_msg() -> Seq<char> {
    "Invalid handshake response"@
}

/// Builds the rejection text for a malformed response.
fn invalid_response_msg() -> (s: String)
    ensures
        s@ == spec_invalid_msg(),
{
    let s: &str = "Invalid handshake response";
    s.to_string()
}

/// Round trip: a response the server encodes over valid `(ip, mask)` pairs
/// is accepted by the parser, yields the same assigned IP, the same route
/// destinations, and for each route the prefix length the parser derives
/// counts the set bits of the encoded netmask.
pub proof fn lemma_handshake_round_trip(ip: u32, routes: Seq<(u32, u32)>)
    requires
        routes.len() <= 255,
    ensures
        valid_response(spec_encode_response(ip, routes)),
        spec_response_ip(spec_encode_response(ip, routes)) == ip,
        forall|i: int|
            0 <= i < routes.len() ==> #[trigger] spec_response_dest(
                spec_encode_response(ip, routes),
                i,
            ) == routes[i].0,
        forall|i: int|
            0 <= i < routes.len() ==> #[trigger] spec_response_mask(
                spec_encode_response(ip, routes),
                i,
            ) == routes[i].1,
{
    let b = spec_encode_response(ip, routes);
    lemma_routes_bytes_len(routes);
    assert(valid_response(b));
    assert(ip_of_octets(spec_octet0(ip), spec_octet1(ip), spec_octet2(ip), spec_octet3(ip))
        == ip) by {
        crate::addr::lemma_octets_of_ip(ip);
    }
    assert forall|i: int| 0 <= i < routes.len() implies #[trigger] spec_response_dest(b, i)
        == routes[i].0 by {
        lemma_routes_bytes_index(routes, i, 0);
        lemma_routes_bytes_index(routes, i, 1);
        lemma_routes_bytes_index(routes, i, 2);
        lemma_routes_bytes_index(routes, i, 3);
        crate::addr::lemma_octets_of_ip(routes[i].0);
    }
    assert forall|i: int| 0 <= i < routes.len() implies #[trigger] spec_response_mask(b, i)
        == routes[i].1 by {
        lemma_routes_bytes_index(routes, i, 4);
        lemma_routes_bytes_index(routes, i, 5);
        lemma_routes_bytes_index(routes, i, 6);
        lemma_routes_bytes_index(routes, i, 7);
        crate::addr::lemma_octets_of_ip(routes[i].1);
    }
}

} // verus!
