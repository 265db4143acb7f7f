//! Network addresses as plain values, and their textual form.

use vstd::prelude::*;
use vstd::string::*;

verus! {

/// An IP address: four octets, or eight 16-bit groups.
#[derive(Clone, Copy, Debug, PartialEq, Eq, Structural)]
pub enum IpAddress {
    V4(u8, u8, u8, u8),
    V6(u16, u16, u16, u16, u16, u16, u16, u16),
}

/// An IP address together with a port.
#[derive(Clone, Copy, Debug, PartialEq, Eq, Structural)]
pub struct SocketAddress {
    pub ip: IpAddress,
    pub port: u16,
}

/// The unspecified IPv4 address `0.0.0.0`.
pub open spec fn spec_unspecified() -> IpAddress {
    IpAddress::V4(0, 0, 0, 0)
}

/// The character that writes the digit `d` (lower case above nine).
pub open spec fn digit_char(d: nat) -> char {
    if d == 0 {
        '0'
    } else if d == 1 {
        '1'
    } else if d == 2 {
        '2'
    } else if d == 3 {
        '3'
    } else if d == 4 {
        '4'
    } else if d == 5 {
        '5'
    } else if d == 6 {
        '6'
    } else if d == 7 {
        '7'
    } else if d == 8 {
        '8'
    } else if d == 9 {
        '9'
    } else if d == 10 {
        'a'
    } else if d == 11 {
        'b'
    } else if d == 12 {
        'c'
    } else if d == 13 {
        'd'
    } else if d == 14 {
        'e'
    } else {
        'f'
    }
}

/// The digits of `n` in the given base, most significant first, without
/// leading zeros (`0` itself is written as one digit).
pub open spec fn digits(n: nat, base: nat) -> Seq<char>
    decreases n,
    via digits_shrink
{
    if base < 2 || n < base {
        seq![digit_char(n)]
    } else {
        digits(n / base, base).push(digit_char(n % base))
    }
}

/// Dotted decimal for four octets. For the long form, all eight groups in
/// hexadecimal, separated by colons.
///
/// The long form is written in full: a run of zero groups is not shortened
/// to `::`, and an address that embeds four octets is not written with dots,
/// as the standard library would print it. The loopback address is
/// `0:0:0:0:0:0:0:1` here and `::1` there. Both texts denote the same
/// address, and both are accepted between the brackets of a URL.
pub open spec fn ip_text(ip: IpAddress) -> Seq<char> {
    match ip {
        IpAddress::V4(a, b, c, d) => digits(a as nat, 10) + seq!['.'] + digits(b as nat, 10)
            + seq!['.'] + digits(c as nat, 10) + seq!['.'] + digits(d as nat, 10),
        IpAddress::V6(a, b, c, d, e, f, g, h) => digits(a as nat, 16) + seq![':'] + digits(
            b as nat,
            16,
        ) + seq![':'] + digits(c as nat, 16) + seq![':'] + digits(d as nat, 16) + seq![':']
            + digits(e as nat, 16) + seq![':'] + digits(f as nat, 16) + seq![':'] + digits(
            g as nat,
            16,
        ) + seq![':'] + digits(h as nat, 16),
    }
}

/// `ip:port`, with the long form of address enclosed in square brackets.
pub open spec fn socket_text(addr: SocketAddress) -> Seq<char> {
    match addr.ip {
        IpAddress::V4(..) => ip_text(addr.ip) + seq![':'] + digits(addr.port as nat, 10),
        IpAddress::V6(..) => seq!['['] + ip_text(addr.ip) + seq![']', ':'] + digits(
            addr.port as nat,
            10,
        ),
    }
}

#[via_fn]
proof fn digits_shrink(n: nat, base: nat) {
    if !(base < 2 || n < base) {
        assert(n / base < n) by (nonlinear_arith)
            requires
                base >= 2,
                n >= base,
        ;
    }
}

fn digit_str(d: u16) -> (s: &'static str)
    requires
        d < 16,
    ensures
        s@ == seq![digit_char(d as nat)],
{
    proof {
        reveal_strlit("0");
        reveal_strlit("1");
        reveal_strlit("2");
        reveal_strlit("3");
        reveal_strlit("4");
        reveal_strlit("5");
        reveal_strlit("6");
        reveal_strlit("7");
        reveal_strlit("8");
        reveal_strlit("9");
        reveal_strlit("a");
        reveal_strlit("b");
        reveal_strlit("c");
        reveal_strlit("d");
        reveal_strlit("e");
        reveal_strlit("f");
    }
    let s: &'static str = match d {
        0 => "0",
        1 => "1",
        2 => "2",
        3 => "3",
        4 => "4",
        5 => "5",
        6 => "6",
        7 => "7",
        8 => "8",
        9 => "9",
        10 => "a",
        11 => "b",
        12 => "c",
        13 => "d",
        14 => "e",
        _ => "f",
    };
    assert(s@ =~= seq![digit_char(d as nat)]);
    s
}

/// Appends the digits of `n` in base `base` to `out`.
fn push_number(out: &mut String, n: u16, base: u16)
    requires
        2 <= base <= 16,
    ensures
        final(out)@ == old(out)@ + digits(n as nat, base as nat),
    decreases n,
{
    if n < base {
        out.append(digit_str(n));
    } else {
        assert(n / base < n && (n as nat) / (base as nat) == (n / base) as nat && (n as nat) % (
        base as nat) == (n % base) as nat && n % base < base) by (nonlinear_arith)
            requires
                base >= 2,
                n >= base,
        ;
        push_number(out, n / base, base);
        out.append(digit_str(n % base));
        assert(out@ =~= old(out)@ + digits(n as nat, base as nat));
    }
}


impl IpAddress {
    /// The unspecified IPv4 address `0.0.0.0`.
    pub fn unspecified() -> (ip: IpAddress)
        ensures
            ip == spec_unspecified(),
    {
        IpAddress::V4(0, 0, 0, 0)
    }

    /// Appends the address's text to `out`.
    pub fn push_text(&self, out: &mut String)
        ensures
            final(out)@ == old(out)@ + ip_text(*self),
    {
        proof {
            reveal_strlit(".");
            reveal_strlit(":");
        }
        match *self {
            IpAddress::V4(a, b, c, d) => {
                push_number(out, a as u16, 10);
                out.append(".");
                push_number(out, b as u16, 10);
                out.append(".");
                push_number(out, c as u16, 10);
                out.append(".");
                push_number(out, d as u16, 10);
                assert(out@ =~= old(out)@ + ip_text(*self));
            },
            IpAddress::V6(a, b, c, d, e, f, g, h) => {
                push_number(out, a, 16);
                out.append(":");
                push_number(out, b, 16);
                out.append(":");
                push_number(out, c, 16);
                out.append(":");
                push_number(out, d, 16);
                out.append(":");
                push_number(out, e, 16);
                out.append(":");
                push_number(out, f, 16);
                out.append(":");
                push_number(out, g, 16);
                out.append(":");
                push_number(out, h, 16);
                assert(out@ =~= old(out)@ + ip_text(*self));
            },
        }
    }

    /// The address as text.
    pub fn text(&self) -> (s: String)
        ensures
            s@ == ip_text(*self),
    {
        let mut s = String::new();
        self.push_text(&mut s);
        assert(s@ =~= ip_text(*self));
        s
    }
}

impl SocketAddress {
    /// Appends `ip:port` to `out`.
    pub fn push_text(&self, out: &mut String)
        ensures
            final(out)@ == old(out)@ + socket_text(*self),
    {
        proof {
            reveal_strlit("[");
            reveal_strlit("]:");
            reveal_strlit(":");
        }
        match self.ip {
            IpAddress::V4(..) => {
                self.ip.push_text(out);
                out.append(":");
                push_number(out, self.port, 10);
                assert(out@ =~= old(out)@ + socket_text(*self));
            },
            IpAddress::V6(..) => {
                out.append("[");
                self.ip.push_text(out);
                out.append("]:");
                push_number(out, self.port, 10);
                assert("]:"@ =~= seq![']', ':']);
                assert(out@ =~= old(out)@ + socket_text(*self));
            },
        }
    }

    /// The socket address as text.
    pub fn text(&self) -> (s: String)
        ensures
            s@ == socket_text(*self),
    {
        let mut s = String::new();
        self.push_text(&mut s);
        assert(s@ =~= socket_text(*self));
        s
    }
}

} // verus!
