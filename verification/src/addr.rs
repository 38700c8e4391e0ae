//! IPv4 addresses as 32-bit integers: octet conversions, netmask prefix
//! length, and remote UDP endpoints as plain values.

use vstd::prelude::*;
use vstd::string::StringExecFns;

verus! {

broadcast use vstd::string::group_string_axioms;

/// The 32-bit address whose network-order octets are `a.b.c.d`.
pub open spec fn ip_of_octets(a: u8, b: u8, c: u8, d: u8) -> u32 {
    (a * 0x100_0000 + b * 0x1_0000 + c * 0x100 + d) as u32
}

/// Octet `0` (most significant) of an address.
pub open spec fn spec_octet0(ip: u32) -> u8 {
    ((ip >> 24) & 0xff) as u8
}

/// Octet `1` of an address.
pub open spec fn spec_octet1(ip: u32) -> u8 {
    ((ip >> 16) & 0xff) as u8
}

/// Octet `2` of an address.
pub open spec fn spec_octet2(ip: u32) -> u8 {
    ((ip >> 8) & 0xff) as u8
}

/// Octet `3` (least significant) of an address.
pub open spec fn spec_octet3(ip: u32) -> u8 {
    (ip & 0xff) as u8
}

/// Reassembling the four octets of an address gives the address back.
pub proof fn lemma_octets_of_ip(ip: u32)
    ensures
        ip_of_octets(spec_octet0(ip), spec_octet1(ip), spec_octet2(ip), spec_octet3(ip)) == ip,
{
    assert((((ip >> 24) & 0xff) as u8) * 0x100_0000 + (((ip >> 16) & 0xff) as u8) * 0x1_0000 + ((
    (ip >> 8) & 0xff) as u8) * 0x100 + ((ip & 0xff) as u8) == ip) by (bit_vector);
}

/// Builds the address `a.b.c.d` from its network-order octets.
pub fn ipv4_from_octets(a: u8, b: u8, c: u8, d: u8) -> (r: u32)
    ensures
        r == ip_of_octets(a, b, c, d),
{
    (a as u32) * 0x100_0000 + (b as u32) * 0x1_0000 + (c as u32) * 0x100 + (d as u32)
}

/// Splits an address into its four network-order octets.
pub fn ipv4_octets(ip: u32) -> (r: (u8, u8, u8, u8))
    ensures
        r.0 == spec_octet0(ip),
        r.1 == spec_octet1(ip),
        r.2 == spec_octet2(ip),
        r.3 == spec_octet3(ip),
        ip_of_octets(r.0, r.1, r.2, r.3) == ip,
{
    proof {
        lemma_octets_of_ip(ip);
    }
    (((ip >> 24) & 0xff) as u8, ((ip >> 16) & 0xff) as u8, ((ip >> 8) & 0xff) as u8, (ip
        & 0xff) as u8)
}

/// How many of the low `n` bit positions of `m` are set.
pub open spec fn popcount_upto(m: u32, n: nat) -> nat
    decreases n,
{
    if n == 0 {
        0
    } else {
        popcount_upto(m, (n - 1) as nat) + (if (m >> ((n - 1) as u32)) & 1 == 1 {
            1nat
        } else {
            0nat
        })
    }
}

/// The number of set bits of `m`; a netmask's prefix length.
pub open spec fn popcount(m: u32) -> nat {
    popcount_upto(m, 32)
}

/// Counts the set bits of a netmask, which for a contiguous mask is its
/// prefix length.
pub fn prefix_len_of_mask(mask: u32) -> (r: u32)
    ensures
        r == popcount(mask),
        r <= 32,
{
    let mut count: u32 = 0;
    let mut i: u32 = 0;
    while i < 32
        invariant
            i <= 32,
            count <= i,
            count == popcount_upto(mask, i as nat),
        decreases 32 - i,
    {
        if (mask >> i) & 1 == 1 {
            count = count + 1;
        }
        i = i + 1;
    }
    count
}

/// The decimal digit character for `d`.
pub open spec fn spec_digit_char(d: u8) -> char {
    if d == 0 {
        '0'
    } else if d == 1 {
        '1'
    } else if d == 2 {
        '2'
    } else if d == 3 {
        '3'
    } else if d == 4 {
        '4'
    } else if d == 5 {
        '5'
    } else if d == 6 {
        '6'
    } else if d == 7 {
        '7'
    } else if d == 8 {
        '8'
    } else {
        '9'
    }
}

/// The decimal text of one octet, without leading zeros.
pub open spec fn spec_decimal_u8(n: u8) -> Seq<char> {
    if n < 10 {
        seq![spec_digit_char(n)]
    } else if n < 100 {
        seq![spec_digit_char(n / 10), spec_digit_char(n % 10)]
    } else {
        seq![spec_digit_char(n / 100), spec_digit_char((n / 10) % 10), spec_digit_char(n % 10)]
    }
}

/// The dotted-quad text of an address.
pub open spec fn spec_dotted_quad(ip: u32) -> Seq<char> {
    spec_decimal_u8(spec_octet0(ip)) + seq!['.'] + spec_decimal_u8(spec_octet1(ip)) + seq!['.']
        + spec_decimal_u8(spec_octet2(ip)) + seq!['.'] + spec_decimal_u8(spec_octet3(ip))
}

/// Appends the character of one decimal digit.
fn push_digit(s: &mut String, d: u8)
    requires
        d < 10,
    ensures
        final(s)@ == old(s)@ + seq![spec_digit_char(d)],
{
    let t: &str = if d == 0 {
        "0"
    } else if d == 1 {
        "1"
    } else if d == 2 {
        "2"
    } else if d == 3 {
        "3"
    } else if d == 4 {
        "4"
    } else if d == 5 {
        "5"
    } else if d == 6 {
        "6"
    } else if d == 7 {
        "7"
    } else if d == 8 {
        "8"
    } else {
        "9"
    };
    proof {
        reveal_strlit("0");
        reveal_strlit("1");
        reveal_strlit("2");
        reveal_strlit("3");
        reveal_strlit("4");
        reveal_strlit("5");
        reveal_strlit("6");
        reveal_strlit("7");
        reveal_strlit("8");
        reveal_strlit("9");
        assert(t@ =~= seq![spec_digit_char(d)]);
    }
    s.append(t);
}

/// Appends the decimal text of one octet.
fn push_octet(s: &mut String, n: u8)
    ensures
        final(s)@ == old(s)@ + spec_decimal_u8(n),
{
    if n >= 100 {
        push_digit(s, n / 100);
        push_digit(s, (n / 10) % 10);
        push_digit(s, n % 10);
        proof {
            assert(s@ =~= old(s)@ + spec_decimal_u8(n));
        }
    } else if n >= 10 {
        push_digit(s, n / 10);
        push_digit(s, n % 10);
        proof {
            assert(s@ =~= old(s)@ + spec_decimal_u8(n));
        }
    } else {
        push_digit(s, n);
    }
}

/// Renders an address as its dotted-quad text, for the host-facing
/// configuration.
pub fn format_ipv4(ip: u32) -> (s: String)
    ensures
        s@ == spec_dotted_quad(ip),
{
    let (a, b, c, d) = ipv4_octets(ip);
    let empty: &str = "";
    let mut s: String = empty.to_string();
    proof {
        reveal_strlit("");
        assert(s@ =~= Seq::<char>::empty());
    }
    push_octet(&mut s, a);
    push_dot(&mut s);
    push_octet(&mut s, b);
    push_dot(&mut s);
    push_octet(&mut s, c);
    push_dot(&mut s);
    push_octet(&mut s, d);
    proof {
        assert(s@ =~= spec_dotted_quad(ip));
    }
    s
}

/// Appends the separating dot.
fn push_dot(s: &mut String)
    ensures
        final(s)@ == old(s)@ + seq!['.'],
{
    let t: &str = ".";
    proof {
        reveal_strlit(".");
        assert(t@ =~= seq!['.']);
    }
    s.append(t);
}

/// A client's remote UDP endpoint, as plain values.
#[derive(Clone, Copy, PartialEq, Eq, Structural, Debug)]
pub struct Endpoint {
    pub ip: u32,
    pub port: u16,
}

/// The endpoint packed into one integer, so it can key a hash map.
pub open spec fn spec_endpoint_key(e: Endpoint) -> u64 {
    ((e.ip as u64) << 16) | (e.port as u64)
}

/// Distinct endpoints pack to distinct keys.
pub proof fn lemma_endpoint_key_injective(e1: Endpoint, e2: Endpoint)
    requires
        spec_endpoint_key(e1) == spec_endpoint_key(e2),
    ensures
        e1 == e2,
{
    let a = e1.ip;
    let b = e1.port;
    let c = e2.ip;
    let d = e2.port;
    assert((((a as u64) << 16) | (b as u64)) == (((c as u64) << 16) | (d as u64)) ==> a == c && b
        == d) by (bit_vector);
}

/// Packs an endpoint into the integer key used by the registry.
pub fn endpoint_key(e: &Endpoint) -> (k: u64)
    ensures
        k == spec_endpoint_key(*e),
{
    ((e.ip as u64) << 16) | (e.port as u64)
}

} // verus!
