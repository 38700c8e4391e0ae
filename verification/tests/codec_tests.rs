use toyvpn::addr::{format_ipv4, ipv4_from_octets, ipv4_octets, prefix_len_of_mask};
use toyvpn::codec::{
    encode_handshake_request, encode_handshake_response, parse_handshake_response, VpnError,
};

fn ip(a: u8, b: u8, c: u8, d: u8) -> u32 {
    ((a as u32) << 24) | ((b as u32) << 16) | ((c as u32) << 8) | (d as u32)
}

#[test]
fn request_is_the_two_tag_bytes() {
    assert_eq!(encode_handshake_request(), vec![0x00, 0x01]);
}

#[test]
fn response_for_first_client_is_the_fixed_fifteen_bytes() {
    let resp = encode_handshake_response(ip(10, 0, 0, 2), &vec![(0, 0)]);
    assert_eq!(
        resp,
        vec![0x00, 0x02, 0x0A, 0x00, 0x00, 0x02, 0x01, 0x00, 0x00, 0x00, 0x00, 0x00, 0x00, 0x00, 0x00]
    );
}

#[test]
fn parse_accepts_the_default_response() {
    let resp = vec![0x00, 0x02, 0x0A, 0x00, 0x00, 0x02, 0x01, 0, 0, 0, 0, 0, 0, 0, 0];
    let cfg = parse_handshake_response(&resp).unwrap();
    assert_eq!(cfg.client_ip, ip(10, 0, 0, 2));
    assert_eq!(cfg.routes.len(), 1);
    assert_eq!(cfg.routes[0].destination, 0);
    assert_eq!(cfg.routes[0].prefix_length, 0);
}

#[test]
fn round_trip_preserves_ip_and_derives_prefix_from_popcount() {
    let routes = vec![
        (ip(0, 0, 0, 0), ip(0, 0, 0, 0)),
        (ip(10, 0, 0, 0), ip(255, 0, 0, 0)),
        (ip(192, 168, 7, 0), ip(255, 255, 255, 0)),
        (ip(172, 16, 0, 0), ip(255, 240, 0, 0)),
    ];
    let resp = encode_handshake_response(ip(10, 0, 0, 42), &routes);
    assert_eq!(resp.len(), 7 + 8 * routes.len());
    let cfg = parse_handshake_response(&resp).unwrap();
    assert_eq!(cfg.client_ip, ip(10, 0, 0, 42));
    assert_eq!(cfg.routes.len(), routes.len());
    let expected_prefixes = [0, 8, 24, 12];
    for (i, r) in cfg.routes.iter().enumerate() {
        assert_eq!(r.destination, routes[i].0);
        assert_eq!(r.prefix_length, expected_prefixes[i]);
        assert_eq!(r.prefix_length, routes[i].1.count_ones() as i32);
    }
}

#[test]
fn short_or_mistagged_responses_are_rejected() {
    let cases: Vec<Vec<u8>> = vec![
        vec![],
        vec![0x00],
        vec![0x00, 0x02, 0x0A, 0x00, 0x00, 0x02],
        vec![0x00, 0x01, 0x0A, 0x00, 0x00, 0x02, 0x00],
        vec![0x01, 0x02, 0x0A, 0x00, 0x00, 0x02, 0x00],
    ];
    for bad in cases {
        match parse_handshake_response(&bad) {
            Err(VpnError::StartFailed(msg)) => {
                assert_eq!(msg, "Invalid handshake response");
            }
            Ok(_) => panic!("accepted a malformed response"),
        }
    }
}

#[test]
fn truncated_route_block_is_rejected() {
    // Claims one route but carries only four of its eight bytes.
    let bad = vec![0x00, 0x02, 0x0A, 0x00, 0x00, 0x02, 0x01, 0, 0, 0, 0];
    assert!(parse_handshake_response(&bad).is_err());
}

#[test]
fn octet_conversions_round_trip() {
    let v = ip(203, 0, 113, 77);
    assert_eq!(ipv4_from_octets(203, 0, 113, 77), v);
    assert_eq!(ipv4_octets(v), (203, 0, 113, 77));
}

#[test]
fn dotted_quad_text_matches_the_expected_rendering() {
    assert_eq!(format_ipv4(ip(0, 0, 0, 0)), "0.0.0.0");
    assert_eq!(format_ipv4(ip(10, 0, 0, 2)), "10.0.0.2");
    assert_eq!(format_ipv4(ip(255, 255, 255, 255)), "255.255.255.255");
    assert_eq!(format_ipv4(ip(192, 168, 1, 10)), "192.168.1.10");
    assert_eq!(format_ipv4(ip(7, 77, 177, 99)), "7.77.177.99");
}

#[test]
fn prefix_length_counts_set_bits() {
    assert_eq!(prefix_len_of_mask(0), 0);
    assert_eq!(prefix_len_of_mask(ip(255, 255, 255, 0)), 24);
    assert_eq!(prefix_len_of_mask(ip(255, 255, 255, 252)), 30);
    assert_eq!(prefix_len_of_mask(u32::MAX), 32);
    // Matches popcount even for a non-contiguous mask.
    assert_eq!(prefix_len_of_mask(ip(255, 0, 255, 0)), 16);
}
