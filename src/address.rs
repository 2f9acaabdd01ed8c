use vstd::prelude::*;
use crate::signal::Socket;

verus! {

/// The lower-case hexadecimal digit of `d`, for `d` below 16.
pub open spec fn hex_digit(d: u8) -> char {
    if d < 10 {
        (48 + d) as char
    } else {
        (87 + d) as char
    }
}

/// The two hexadecimal digits of a byte.
pub open spec fn byte_hex(b: u8) -> Seq<char> {
    seq![hex_digit(b / 16), hex_digit(b % 16)]
}

/// The first `n` bytes of an address in hexadecimal, with a colon before
/// every pair of bytes but the first.
pub open spec fn address_hex(s: Seq<u8>, n: nat) -> Seq<char>
    decreases n,
{
    if n == 0 {
        Seq::empty()
    } else {
        let k = (n - 1) as nat;
        address_hex(s, k) + if k > 0 && k % 2 == 0 {
            seq![':']
        } else {
            Seq::empty()
        } + byte_hex(s[k as int])
    }
}

/// The decimal digits of `n`, with no leading zero.
pub open spec fn decimal(n: nat) -> Seq<char>
    decreases n,
{
    if n < 10 {
        seq![(48 + n) as char]
    } else {
        decimal(n / 10).push((48 + n % 10) as char)
    }
}

/// The port of a socket: its last two bytes, big-endian.
pub open spec fn port_of(s: Seq<u8>) -> nat {
    s[16] as nat * 256 + s[17] as nat
}

/// A socket written as `[xxxx:xxxx:xxxx:xxxx:xxxx:xxxx:xxxx:xxxx]:port`.
pub open spec fn socket_text(s: Seq<u8>) -> Seq<char> {
    seq!['['] + address_hex(s, 16) + seq![']', ':'] + decimal(port_of(s))
}

/// Relies on `FromIterator<char>` for `String`: the string of those
/// characters, in order.
#[verifier::external_body]
fn string_from_chars(v: &Vec<char>) -> (r: String)
    ensures
        r@ == v@,
{
    v.iter().collect()
}

fn hex_char(d: u8) -> (r: char)
    requires
        d < 16,
    ensures
        r == hex_digit(d),
{
    if d < 10 {
        (48 + d) as char
    } else {
        (87 + d) as char
    }
}

fn push_decimal(out: &mut Vec<char>, n: u32)
    ensures
        final(out)@ == old(out)@ + decimal(n as nat),
    decreases n,
{
    if n >= 10 {
        push_decimal(out, n / 10);
    }
    let d = (n % 10) as u8;
    out.push((48 + d) as char);
    assert(final(out)@ == old(out)@ + decimal(n as nat)) by {
        if n >= 10 {
            assert(old(out)@ + decimal(n as nat) =~= old(out)@ + decimal((n / 10) as nat) + seq![
                (48 + n % 10) as char,
            ]);
        }
    }
}

/// Writes a socket as an IPv6 address in brackets, eight groups of four
/// lower-case hexadecimal digits, followed by a colon and the decimal port.
pub fn format_socket_address(socket: &Socket) -> (r: String)
    ensures
        r@ == socket_text(socket@),
{
    let mut out: Vec<char> = Vec::new();
    out.push('[');
    let mut i: usize = 0;
    while i < 16
        invariant
            i <= 16,
            socket@.len() == 18,
            out@ == seq!['['] + address_hex(socket@, i as nat),
        decreases 16 - i,
    {
        if i > 0 && i % 2 == 0 {
            out.push(':');
        }
        let b = socket[i];
        out.push(hex_char(b / 16));
        out.push(hex_char(b % 16));
        assert(out@ =~= seq!['['] + address_hex(socket@, (i + 1) as nat));
        i = i + 1;
    }
    out.push(']');
    out.push(':');
    let port = (socket[16] as u32) * 256 + socket[17] as u32;
    push_decimal(&mut out, port);
    assert(out@ =~= socket_text(socket@));
    string_from_chars(&out)
}

} // verus!
