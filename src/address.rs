//! The rate-limit subject of a client address. An IPv4 address is its own
//! subject; an IPv6 address stands for its whole /64 block, so that rotating
//! through the addresses of one block does not escape the limiter.
use vstd::prelude::*;

verus! {

/// A client's network address.
#[derive(Clone, Copy, Debug)]
pub enum ClientAddr {
    /// The four octets of an IPv4 address.
    V4([u8; 4]),
    /// The eight 16-bit segments of an IPv6 address.
    V6([u16; 8]),
}

/// The lower-case hexadecimal digits, in order of value.
pub open spec fn digit_chars() -> Seq<char> {
    seq!['0', '1', '2', '3', '4', '5', '6', '7', '8', '9', 'a', 'b', 'c', 'd', 'e', 'f']
}

pub open spec fn digit(d: int) -> char {
    digit_chars()[d]
}

/// A 16-bit value as exactly four lower-case hexadecimal digits.
pub open spec fn hex4(w: u16) -> Seq<char> {
    let v = w as int;
    seq![
        digit(v / 4096),
        digit((v / 256) % 16),
        digit((v / 16) % 16),
        digit(v % 16),
    ]
}

/// An octet in decimal, without leading zeros.
pub open spec fn decimal(w: u8) -> Seq<char> {
    let v = w as int;
    if v < 10 {
        seq![digit(v)]
    } else if v < 100 {
        seq![digit(v / 10), digit(v % 10)]
    } else {
        seq![digit(v / 100), digit((v / 10) % 10), digit(v % 10)]
    }
}

/// Dotted-decimal notation of an IPv4 address.
pub open spec fn dotted(o: [u8; 4]) -> Seq<char> {
    decimal(o[0]) + seq!['.'] + decimal(o[1]) + seq!['.'] + decimal(o[2]) + seq!['.'] + decimal(
        o[3],
    )
}

/// The /64 prefix of an IPv6 address: its first four segments in
/// hexadecimal, followed by `::/64`.
pub open spec fn prefix64(s: [u16; 8]) -> Seq<char> {
    hex4(s[0]) + seq![':'] + hex4(s[1]) + seq![':'] + hex4(s[2]) + seq![':'] + hex4(s[3]) + seq![
        ':',
        ':',
        '/',
        '6',
        '4',
    ]
}

/// The key under which a client's events are counted.
pub open spec fn subject_key(addr: ClientAddr) -> Seq<char> {
    match addr {
        ClientAddr::V4(o) => dotted(o),
        ClientAddr::V6(s) => prefix64(s),
    }
}

fn push_digit(s: &mut String, d: usize)
    requires
        d < 16,
    ensures
        final(s)@ == old(s)@ + seq![digit(d as int)],
{
    proof {
        reveal_strlit("0123456789abcdef");
    }
    let digits = "0123456789abcdef";
    assert(digits@ =~= digit_chars());
    let one = digits.substring_char(d, d + 1);
    assert(one@ =~= seq![digit(d as int)]);
    s.append(one);
}

fn push_hex4(s: &mut String, v: u16)
    ensures
        final(s)@ == old(s)@ + hex4(v),
{
    let ghost start = s@;
    push_digit(s, (v / 4096) as usize);
    push_digit(s, ((v / 256) % 16) as usize);
    push_digit(s, ((v / 16) % 16) as usize);
    push_digit(s, (v % 16) as usize);
    assert(s@ =~= start + hex4(v));
}

fn push_decimal(s: &mut String, v: u8)
    ensures
        final(s)@ == old(s)@ + decimal(v),
{
    let ghost start = s@;
    if v < 10 {
        push_digit(s, v as usize);
    } else if v < 100 {
        push_digit(s, (v / 10) as usize);
        push_digit(s, (v % 10) as usize);
    } else {
        push_digit(s, (v / 100) as usize);
        push_digit(s, ((v / 10) % 10) as usize);
        push_digit(s, (v % 10) as usize);
    }
    assert(s@ =~= start + decimal(v));
}

/// The rate-limit key of a client: the dotted-decimal form of an IPv4
/// address, or the /64 prefix of an IPv6 address (`2001:0db8:0000:0001::/64`).
pub fn rate_limit_key(addr: &ClientAddr) -> (r: String)
    ensures
        r@ == subject_key(*addr),
{
    let mut s = String::new();
    match addr {
        ClientAddr::V4(o) => {
            push_decimal(&mut s, o[0]);
            s.append(".");
            push_decimal(&mut s, o[1]);
            s.append(".");
            push_decimal(&mut s, o[2]);
            s.append(".");
            push_decimal(&mut s, o[3]);
            proof {
                reveal_strlit(".");
            }
            assert(s@ =~= dotted(*o));
        },
        ClientAddr::V6(g) => {
            push_hex4(&mut s, g[0]);
            s.append(":");
            push_hex4(&mut s, g[1]);
            s.append(":");
            push_hex4(&mut s, g[2]);
            s.append(":");
            push_hex4(&mut s, g[3]);
            s.append("::/64");
            proof {
                reveal_strlit(":");
                reveal_strlit("::/64");
            }
            assert(s@ =~= prefix64(*g));
        },
    }
    s
}

proof fn lemma_hex4_injective(a: u16, b: u16)
    requires
        hex4(a) == hex4(b),
    ensures
        a == b,
{
    assert(hex4(a)[0] == hex4(b)[0]);
    assert(hex4(a)[1] == hex4(b)[1]);
    assert(hex4(a)[2] == hex4(b)[2]);
    assert(hex4(a)[3] == hex4(b)[3]);
    assert(a / 4096 == b / 4096);
    assert((a / 256) % 16 == (b / 256) % 16);
    assert((a / 16) % 16 == (b / 16) % 16);
    assert(a % 16 == b % 16);
    assert(a / 4096 == b / 4096 && (a / 256) % 16 == (b / 256) % 16 && (a / 16) % 16 == (b / 16)
        % 16 && a % 16 == b % 16 ==> a == b) by (bit_vector);
}

/// Two IPv6 addresses share a rate-limit key exactly when their first 64 bits
/// (first four segments) agree: the last 64 bits never separate two subjects,
/// and the first 64 bits always do.
pub proof fn lemma_ipv6_key_is_prefix(a: [u16; 8], b: [u16; 8])
    ensures
        subject_key(ClientAddr::V6(a)) == subject_key(ClientAddr::V6(b)) <==> (a[0] == b[0]
            && a[1] == b[1] && a[2] == b[2] && a[3] == b[3]),
{
    let ka = prefix64(a);
    let kb = prefix64(b);
    if ka == kb {
        assert(ka.subrange(0, 4) =~= hex4(a[0]));
        assert(kb.subrange(0, 4) =~= hex4(b[0]));
        assert(ka.subrange(5, 9) =~= hex4(a[1]));
        assert(kb.subrange(5, 9) =~= hex4(b[1]));
        assert(ka.subrange(10, 14) =~= hex4(a[2]));
        assert(kb.subrange(10, 14) =~= hex4(b[2]));
        assert(ka.subrange(15, 19) =~= hex4(a[3]));
        assert(kb.subrange(15, 19) =~= hex4(b[3]));
        lemma_hex4_injective(a[0], b[0]);
        lemma_hex4_injective(a[1], b[1]);
        lemma_hex4_injective(a[2], b[2]);
        lemma_hex4_injective(a[3], b[3]);
    }
}

} // verus!
