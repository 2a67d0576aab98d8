use vstd::prelude::*;
use vstd::string::StringExecFns;

verus! {

/// An IPv4 endpoint: four address octets and a port.
#[derive(Clone, Debug)]
pub struct AddrV4 {
    pub octets: [u8; 4],
    pub port: u16,
}

/// An IPv6 endpoint: sixteen address octets, a port and a scope identifier.
#[derive(Clone, Debug)]
pub struct AddrV6 {
    pub octets: [u8; 16],
    pub port: u16,
    pub scope: u32,
}

/// A destination for a datagram. The two internet families carry the OS's
/// native wire data as plain values; `Unix` is a path-based local address,
/// which only the raw-capable endpoint can send to.
#[derive(Clone, Debug)]
pub enum Addr {
    V4(AddrV4),
    V6(AddrV6),
    Unix(String),
}

pub open spec fn dec_digit(n: nat) -> char {
    if n == 0 {
        '0'
    } else if n == 1 {
        '1'
    } else if n == 2 {
        '2'
    } else if n == 3 {
        '3'
    } else if n == 4 {
        '4'
    } else if n == 5 {
        '5'
    } else if n == 6 {
        '6'
    } else if n == 7 {
        '7'
    } else if n == 8 {
        '8'
    } else {
        '9'
    }
}

/// The decimal rendering of `n`, most significant digit first, no leading zeros.
pub open spec fn dec_seq(n: nat) -> Seq<char>
    decreases n,
{
    if n < 10 {
        seq![dec_digit(n)]
    } else {
        dec_seq(n / 10) + seq![dec_digit(n % 10)]
    }
}

pub open spec fn hex_digit(n: nat) -> char {
    if n < 10 {
        dec_digit(n)
    } else if n == 10 {
        'a'
    } else if n == 11 {
        'b'
    } else if n == 12 {
        'c'
    } else if n == 13 {
        'd'
    } else if n == 14 {
        'e'
    } else {
        'f'
    }
}

/// Four lowercase hex digits, zero padded.
pub open spec fn hex4_seq(n: nat) -> Seq<char> {
    seq![
        hex_digit(n / 0x1000 % 16),
        hex_digit(n / 0x100 % 16),
        hex_digit(n / 16 % 16),
        hex_digit(n % 16),
    ]
}

/// "a.b.c.d:port", all parts decimal.
pub open spec fn v4_text(a: AddrV4) -> Seq<char> {
    dec_seq(a.octets@[0] as nat) + seq!['.'] + dec_seq(a.octets@[1] as nat) + seq!['.']
        + dec_seq(a.octets@[2] as nat) + seq!['.'] + dec_seq(a.octets@[3] as nat) + seq![':']
        + dec_seq(a.port as nat)
}

/// The i-th 16-bit group of an IPv6 address, big endian.
pub open spec fn v6_group(a: AddrV6, i: int) -> nat {
    (a.octets@[2 * i] as nat) * 256 + (a.octets@[2 * i + 1] as nat)
}

/// "[g0:g1:g2:g3:g4:g5:g6:g7]:port": groups as four-digit lowercase hex,
/// no zero compression, the port decimal. The scope is not rendered.
pub open spec fn v6_text(a: AddrV6) -> Seq<char> {
    seq!['['] + hex4_seq(v6_group(a, 0)) + seq![':'] + hex4_seq(v6_group(a, 1)) + seq![':']
        + hex4_seq(v6_group(a, 2)) + seq![':'] + hex4_seq(v6_group(a, 3)) + seq![':'] + hex4_seq(
        v6_group(a, 4),
    ) + seq![':'] + hex4_seq(v6_group(a, 5)) + seq![':'] + hex4_seq(v6_group(a, 6)) + seq![':']
        + hex4_seq(v6_group(a, 7)) + seq![']'] + seq![':'] + dec_seq(a.port as nat)
}

/// The textual form of an address, as it appears in error messages.
pub open spec fn addr_text(a: Addr) -> Seq<char> {
    match a {
        Addr::V4(v) => v4_text(v),
        Addr::V6(v) => v6_text(v),
        Addr::Unix(p) => p@,
    }
}

fn push_dec_digit(d: u16, s: &mut String)
    requires
        d < 10,
    ensures
        final(s)@ == old(s)@ + seq![dec_digit(d as nat)],
{
    proof {
        reveal_strlit("0");
        reveal_strlit("1");
        reveal_strlit("2");
        reveal_strlit("3");
        reveal_strlit("4");
        reveal_strlit("5");
        reveal_strlit("6");
        reveal_strlit("7");
        reveal_strlit("8");
        reveal_strlit("9");
    }
    if d == 0 {
        s.append("0");
    } else if d == 1 {
        s.append("1");
    } else if d == 2 {
        s.append("2");
    } else if d == 3 {
        s.append("3");
    } else if d == 4 {
        s.append("4");
    } else if d == 5 {
        s.append("5");
    } else if d == 6 {
        s.append("6");
    } else if d == 7 {
        s.append("7");
    } else if d == 8 {
        s.append("8");
    } else {
        s.append("9");
    }
    assert(s@ =~= old(s)@ + seq![dec_digit(d as nat)]);
}

fn push_hex_digit(d: u16, s: &mut String)
    requires
        d < 16,
    ensures
        final(s)@ == old(s)@ + seq![hex_digit(d as nat)],
{
    if d < 10 {
        push_dec_digit(d, s);
    } else {
        proof {
            reveal_strlit("a");
            reveal_strlit("b");
            reveal_strlit("c");
            reveal_strlit("d");
            reveal_strlit("e");
            reveal_strlit("f");
        }
        if d == 10 {
            s.append("a");
        } else if d == 11 {
            s.append("b");
        } else if d == 12 {
            s.append("c");
        } else if d == 13 {
            s.append("d");
        } else if d == 14 {
            s.append("e");
        } else {
            s.append("f");
        }
        assert(s@ =~= old(s)@ + seq![hex_digit(d as nat)]);
    }
}

fn push_dec(n: u16, s: &mut String)
    ensures
        final(s)@ == old(s)@ + dec_seq(n as nat),
    decreases n,
{
    if n >= 10 {
        push_dec(n / 10, s);
        push_dec_digit(n % 10, s);
        assert(s@ =~= old(s)@ + dec_seq(n as nat));
    } else {
        push_dec_digit(n, s);
    }
}

fn push_hex4(g: u16, s: &mut String)
    ensures
        final(s)@ == old(s)@ + hex4_seq(g as nat),
{
    push_hex_digit(g / 0x1000 % 16, s);
    push_hex_digit(g / 0x100 % 16, s);
    push_hex_digit(g / 16 % 16, s);
    push_hex_digit(g % 16, s);
    assert(s@ =~= old(s)@ + hex4_seq(g as nat));
}

impl AddrV4 {
    /// Renders this endpoint as "a.b.c.d:port".
    pub fn to_text(&self) -> (s: String)
        ensures
            s@ == v4_text(*self),
    {
        proof {
            reveal_strlit(".");
            reveal_strlit(":");
        }
        let mut s = String::new();
        push_dec(self.octets[0] as u16, &mut s);
        s.append(".");
        push_dec(self.octets[1] as u16, &mut s);
        s.append(".");
        push_dec(self.octets[2] as u16, &mut s);
        s.append(".");
        push_dec(self.octets[3] as u16, &mut s);
        s.append(":");
        push_dec(self.port, &mut s);
        assert(s@ =~= v4_text(*self));
        s
    }
}

impl AddrV6 {
    /// The i-th 16-bit group of the address, big endian.
    fn group(&self, i: usize) -> (g: u16)
        requires
            i < 8,
        ensures
            g as nat == v6_group(*self, i as int),
    {
        (self.octets[2 * i] as u16) * 256 + (self.octets[2 * i + 1] as u16)
    }

    /// Renders this endpoint as "[g0:g1:g2:g3:g4:g5:g6:g7]:port", hex groups.
    pub fn to_text(&self) -> (s: String)
        ensures
            s@ == v6_text(*self),
    {
        proof {
            reveal_strlit("[");
            reveal_strlit("]");
            reveal_strlit(":");
        }
        let mut s = String::new();
        s.append("[");
        push_hex4(self.group(0), &mut s);
        s.append(":");
        push_hex4(self.group(1), &mut s);
        s.append(":");
        push_hex4(self.group(2), &mut s);
        s.append(":");
        push_hex4(self.group(3), &mut s);
        s.append(":");
        push_hex4(self.group(4), &mut s);
        s.append(":");
        push_hex4(self.group(5), &mut s);
        s.append(":");
        push_hex4(self.group(6), &mut s);
        s.append(":");
        push_hex4(self.group(7), &mut s);
        s.append("]");
        s.append(":");
        push_dec(self.port, &mut s);
        assert(s@ =~= v6_text(*self));
        s
    }
}

impl Addr {
    /// True of the two internet families, which every platform variant can send to.
    pub open spec fn is_inet(&self) -> bool {
        self is V4 || self is V6
    }

    /// The textual form of this address, as used in error messages.
    pub fn to_text(&self) -> (s: String)
        ensures
            s@ == addr_text(*self),
    {
        match self {
            Addr::V4(a) => a.to_text(),
            Addr::V6(a) => a.to_text(),
            Addr::Unix(p) => p.clone(),
        }
    }
}

} // verus!
