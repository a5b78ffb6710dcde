//! Where the client connects and where the server listens: a host and a
//! port, written out as text.

use vstd::prelude::*;

verus! {

/// The host used when none is given: the loopback address.
pub const DEFAULT_HOST: &'static str = "127.0.0.1";

/// The port used when none is given.
pub const DEFAULT_PORT: u16 = 50052;

/// The character of the decimal digit `d`.
pub open spec fn digit_char(d: nat) -> char
    recommends
        d < 10,
{
    ((d + 48) as u8) as char
}

/// `n` in decimal, most significant digit first, without leading zeros.
pub open spec fn decimal(n: nat) -> Seq<char>
    decreases n,
{
    if n < 10 {
        seq![digit_char(n)]
    } else {
        decimal(n / 10).push(digit_char(n % 10))
    }
}

/// The address a server binds: `host:port`.
pub open spec fn bind_address_of(host: Seq<char>, port: u16) -> Seq<char> {
    host + seq![':'] + decimal(port as nat)
}

/// The URI a client connects to: `http://host:port`.
pub open spec fn endpoint_uri_of(host: Seq<char>, port: u16) -> Seq<char> {
    seq!['h', 't', 't', 'p', ':', '/', '/'] + bind_address_of(host, port)
}

/// The one-character text of the digit `d`.
fn digit_text(d: u16) -> (r: &'static str)
    requires
        d < 10,
    ensures
        r@ == seq![digit_char(d as nat)],
{
    proof {
        reveal_strlit("0");
        reveal_strlit("1");
        reveal_strlit("2");
        reveal_strlit("3");
        reveal_strlit("4");
        reveal_strlit("5");
        reveal_strlit("6");
        reveal_strlit("7");
        reveal_strlit("8");
        reveal_strlit("9");
    }
    let r = match d {
        0 => "0",
        1 => "1",
        2 => "2",
        3 => "3",
        4 => "4",
        5 => "5",
        6 => "6",
        7 => "7",
        8 => "8",
        _ => "9",
    };
    assert(r@ =~= seq![digit_char(d as nat)]);
    r
}

/// Appends `n` in decimal to `out`.
fn push_decimal(out: &mut String, n: u16)
    ensures
        final(out)@ == old(out)@ + decimal(n as nat),
    decreases n,
{
    if n >= 10 {
        push_decimal(out, n / 10);
    }
    out.append(digit_text(n % 10));
    assert(final(out)@ =~= old(out)@ + decimal(n as nat));
}

/// The address a server listening on `host` and `port` binds: `host:port`.
pub fn bind_address(host: &str, port: u16) -> (r: String)
    ensures
        r@ == bind_address_of(host@, port),
{
    proof {
        reveal_strlit(":");
    }
    let mut r = String::from_str(host);
    r.append(":");
    push_decimal(&mut r, port);
    assert(r@ =~= bind_address_of(host@, port));
    r
}

/// The URI of the server at `host` and `port`: `http://host:port`.
pub fn endpoint_uri(host: &str, port: u16) -> (r: String)
    ensures
        r@ == endpoint_uri_of(host@, port),
{
    proof {
        reveal_strlit("http://");
        reveal_strlit(":");
    }
    let mut r = String::from_str("http://");
    r.append(host);
    r.append(":");
    push_decimal(&mut r, port);
    assert(r@ =~= endpoint_uri_of(host@, port));
    r
}

} // verus!
