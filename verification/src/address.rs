//! Socket addresses as text: a host, a colon, and the port in decimal.

use vstd::prelude::*;
use vstd::string::*;

verus! {

/// The character of one decimal digit.
pub open spec fn digit_char(d: nat) -> char
    recommends
        d < 10,
{
    if d == 0 {
        '0'
    } else if d == 1 {
        '1'
    } else if d == 2 {
        '2'
    } else if d == 3 {
        '3'
    } else if d == 4 {
        '4'
    } else if d == 5 {
        '5'
    } else if d == 6 {
        '6'
    } else if d == 7 {
        '7'
    } else if d == 8 {
        '8'
    } else {
        '9'
    }
}

/// A number in decimal, without leading zeros.
pub open spec fn decimal(n: nat) -> Seq<char>
    decreases n,
{
    if n < 10 {
        seq![digit_char(n)]
    } else {
        decimal(n / 10).push(digit_char(n % 10))
    }
}

/// The address of `port` at `host`.
pub open spec fn endpoint_text(host: Seq<char>, port: u16) -> Seq<char> {
    host.push(':') + decimal(port as nat)
}

/// The host that stands for every local interface.
pub open spec fn any_interface() -> Seq<char> {
    "0.0.0.0"@
}

/// The address on which a listener for `port` receives: the port on every
/// local interface.
pub open spec fn listen_text(port: u16) -> Seq<char> {
    endpoint_text(any_interface(), port)
}

/// The local address of a socket that only sends: any free port.
pub open spec fn ephemeral_text() -> Seq<char> {
    listen_text(0)
}

fn digit(d: u16) -> (text: &'static str)
    requires
        d < 10,
    ensures
        text@ == seq![digit_char(d as nat)],
{
    proof {
        reveal_strlit("0");
        reveal_strlit("1");
        reveal_strlit("2");
        reveal_strlit("3");
        reveal_strlit("4");
        reveal_strlit("5");
        reveal_strlit("6");
        reveal_strlit("7");
        reveal_strlit("8");
        reveal_strlit("9");
    }
    let text = if d == 0 {
        "0"
    } else if d == 1 {
        "1"
    } else if d == 2 {
        "2"
    } else if d == 3 {
        "3"
    } else if d == 4 {
        "4"
    } else if d == 5 {
        "5"
    } else if d == 6 {
        "6"
    } else if d == 7 {
        "7"
    } else if d == 8 {
        "8"
    } else {
        "9"
    };
    assert(text@ =~= seq![digit_char(d as nat)]);
    text
}

fn append_decimal(out: &mut String, n: u16)
    ensures
        final(out)@ == old(out)@ + decimal(n as nat),
    decreases n,
{
    if n >= 10 {
        append_decimal(out, n / 10);
    }
    out.append(digit(n % 10));
    assert(final(out)@ =~= old(out)@ + decimal(n as nat));
}

/// The address of `port` at `host`, as text.
pub fn endpoint(host: &str, port: u16) -> (address: String)
    ensures
        address@ == endpoint_text(host@, port),
{
    let mut address = host.to_owned();
    proof {
        reveal_strlit(":");
    }
    address.append(":");
    append_decimal(&mut address, port);
    assert(address@ =~= endpoint_text(host@, port));
    address
}

/// The address on which a listener for `port` receives.
pub fn listen_endpoint(port: u16) -> (address: String)
    ensures
        address@ == listen_text(port),
{
    endpoint("0.0.0.0", port)
}

/// The local address of a socket that only sends.
pub fn ephemeral_endpoint() -> (address: String)
    ensures
        address@ == ephemeral_text(),
{
    listen_endpoint(0)
}

} // verus!
