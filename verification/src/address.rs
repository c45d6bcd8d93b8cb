//! IPv4 addresses as plain numbers.

use crate::text::{append_decimal, decimal};
use vstd::arithmetic::div_mod::lemma_fundamental_div_mod_converse;
use vstd::prelude::*;
use vstd::string::*;

verus! {

/// An IPv4 address, held as the 32-bit number that its four octets spell when
/// read most significant first (`10.0.0.5` is `0x0A00_0005`).
#[derive(Clone, Copy, Debug, PartialEq, Eq, Structural, Hash)]
pub struct Ipv4Address {
    pub bits: u32,
}

/// The number spelled by four octets, most significant first.
pub open spec fn octets_value(a: u8, b: u8, c: u8, d: u8) -> int {
    a * 0x100_0000 + b * 0x1_0000 + c * 0x100 + d
}

impl Ipv4Address {
    /// The four octets of the address, most significant first.
    pub open spec fn octet_seq(self) -> Seq<u8> {
        seq![
            (self.bits / 0x100_0000) as u8,
            (self.bits / 0x1_0000 % 0x100) as u8,
            (self.bits / 0x100 % 0x100) as u8,
            (self.bits % 0x100) as u8,
        ]
    }

    /// The usual dotted text of the address: its four octets in decimal,
    /// separated by full stops.
    pub open spec fn dotted(self) -> Seq<char> {
        decimal(self.octet_seq()[0] as nat) + seq!['.'] + decimal(self.octet_seq()[1] as nat)
            + seq!['.'] + decimal(self.octet_seq()[2] as nat) + seq!['.'] + decimal(
            self.octet_seq()[3] as nat,
        )
    }

    /// The address `a.b.c.d`.
    pub fn from_octets(a: u8, b: u8, c: u8, d: u8) -> (r: Ipv4Address)
        ensures
            r.bits == octets_value(a, b, c, d),
            r.octet_seq() == seq![a, b, c, d],
    {
        let bits: u32 = (a as u32) * 0x100_0000 + (b as u32) * 0x1_0000 + (c as u32) * 0x100 + (
        d as u32);
        proof {
            lemma_value_splits_into_octets(a, b, c, d);
        }
        Ipv4Address { bits }
    }

    /// The four octets of the address, most significant first.
    pub fn octets(&self) -> (r: [u8; 4])
        ensures
            r@ == self.octet_seq(),
    {
        let a: u8 = (self.bits / 0x100_0000) as u8;
        let b: u8 = (self.bits / 0x1_0000 % 0x100) as u8;
        let c: u8 = (self.bits / 0x100 % 0x100) as u8;
        let d: u8 = (self.bits % 0x100) as u8;
        [a, b, c, d]
    }

    /// Appends the dotted text of the address to `out`.
    pub fn append_to(&self, out: &mut String)
        ensures
            final(out)@ == old(out)@ + self.dotted(),
    {
        let o: [u8; 4] = self.octets();
        append_decimal(out, o[0] as u64);
        out.append(".");
        append_decimal(out, o[1] as u64);
        out.append(".");
        append_decimal(out, o[2] as u64);
        out.append(".");
        append_decimal(out, o[3] as u64);
        proof {
            reveal_strlit(".");
        }
    }

    /// The dotted text of the address.
    pub fn to_text(&self) -> (s: String)
        ensures
            s@ == self.dotted(),
    {
        let mut s = String::new();
        self.append_to(&mut s);
        s
    }
}

/// Dividing the number that four octets spell gives the octets back.
pub proof fn lemma_value_splits_into_octets(a: u8, b: u8, c: u8, d: u8)
    ensures
        octets_value(a, b, c, d) / 0x100_0000 == a,
        octets_value(a, b, c, d) / 0x1_0000 % 0x100 == b,
        octets_value(a, b, c, d) / 0x100 % 0x100 == c,
        octets_value(a, b, c, d) % 0x100 == d,
        0 <= octets_value(a, b, c, d) <= u32::MAX,
{
    let v = octets_value(a, b, c, d);
    lemma_fundamental_div_mod_converse(v, 0x100_0000, a as int, b * 0x1_0000 + c * 0x100 + d);
    lemma_fundamental_div_mod_converse(v, 0x1_0000, a * 0x100 + b, c * 0x100 + d);
    lemma_fundamental_div_mod_converse(a * 0x100 + b, 0x100, a as int, b as int);
    lemma_fundamental_div_mod_converse(v, 0x100, a * 0x1_0000 + b * 0x100 + c, d as int);
    lemma_fundamental_div_mod_converse(a * 0x1_0000 + b * 0x100 + c, 0x100, a * 0x100 + b, c as int);
}

/// An address is the number that its own octets spell: taking an address
/// apart and putting it together again changes nothing.
pub proof fn lemma_octets_spell_the_address(addr: Ipv4Address)
    ensures
        octets_value(
            addr.octet_seq()[0],
            addr.octet_seq()[1],
            addr.octet_seq()[2],
            addr.octet_seq()[3],
        ) == addr.bits,
{
}

} // verus!
