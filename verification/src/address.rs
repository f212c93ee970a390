//! IPv4 addresses as plain values.

use vstd::prelude::*;

verus! {

/// An IPv4 address, held as its 32-bit value with the first octet on top.
#[derive(Clone, Copy, Debug, PartialEq, Eq, Structural)]
pub struct Ipv4Address {
    pub bits: u32,
}

/// The 32-bit value whose octets, from the top, are `a`, `b`, `c`, `d`.
pub open spec fn bits_of(a: u8, b: u8, c: u8, d: u8) -> u32 {
    ((a as u32) << 24) | ((b as u32) << 16) | ((c as u32) << 8) | (d as u32)
}

/// The four octets of a 32-bit value, from the top.
pub open spec fn octets_of(bits: u32) -> Seq<u8> {
    seq![
        ((bits >> 24) & 0xff) as u8,
        ((bits >> 16) & 0xff) as u8,
        ((bits >> 8) & 0xff) as u8,
        (bits & 0xff) as u8,
    ]
}

/// Splitting a value into octets and joining them again changes nothing.
pub proof fn lemma_bits_of_octets(bits: u32)
    ensures
        bits_of(
            octets_of(bits)[0],
            octets_of(bits)[1],
            octets_of(bits)[2],
            octets_of(bits)[3],
        ) == bits,
{
    assert((((((bits >> 24) & 0xff) as u8) as u32) << 24) | (((((bits >> 16) & 0xff) as u8) as u32)
        << 16) | (((((bits >> 8) & 0xff) as u8) as u32) << 8) | (((bits & 0xff) as u8) as u32)
        == bits) by (bit_vector);
}

/// Joining four octets and splitting the value again gives the same octets.
pub proof fn lemma_octets_of_bits(a: u8, b: u8, c: u8, d: u8)
    ensures
        octets_of(bits_of(a, b, c, d)) == seq![a, b, c, d],
{
    let x = bits_of(a, b, c, d);
    assert(((x >> 24) & 0xff) as u8 == a && ((x >> 16) & 0xff) as u8 == b && ((x >> 8) & 0xff) as u8
        == c && (x & 0xff) as u8 == d) by (bit_vector)
        requires
            x == ((a as u32) << 24) | ((b as u32) << 16) | ((c as u32) << 8) | (d as u32),
    ;
    assert(octets_of(x) =~= seq![a, b, c, d]);
}

impl Ipv4Address {
    /// The octets of the address in network order.
    pub open spec fn spec_octets(self) -> Seq<u8> {
        octets_of(self.bits)
    }

    /// The address `a.b.c.d`.
    pub fn new(a: u8, b: u8, c: u8, d: u8) -> (addr: Ipv4Address)
        ensures
            addr.bits == bits_of(a, b, c, d),
            addr.spec_octets() == seq![a, b, c, d],
    {
        proof {
            lemma_octets_of_bits(a, b, c, d);
        }
        Ipv4Address { bits: ((a as u32) << 24) | ((b as u32) << 16) | ((c as u32) << 8) | (d as u32) }
    }

    /// The address 0.0.0.0, the zero value of the type.
    pub fn unspecified() -> (addr: Ipv4Address)
        ensures
            addr.bits == 0,
    {
        Ipv4Address { bits: 0 }
    }

    /// The address 255.255.255.255.
    pub fn all_ones() -> (addr: Ipv4Address)
        ensures
            addr.bits == 0xffff_ffffu32,
    {
        Ipv4Address { bits: 0xffff_ffffu32 }
    }

    /// The octets of the address in network order.
    pub fn octets(&self) -> (out: [u8; 4])
        ensures
            out@ == self.spec_octets(),
    {
        let bits: u32 = self.bits;
        assert(((bits >> 24) & 0xff) <= 0xff && ((bits >> 16) & 0xff) <= 0xff && ((bits >> 8)
            & 0xff) <= 0xff && (bits & 0xff) <= 0xff) by (bit_vector);
        let out: [u8; 4] = [
            ((bits >> 24) & 0xff) as u8,
            ((bits >> 16) & 0xff) as u8,
            ((bits >> 8) & 0xff) as u8,
            (bits & 0xff) as u8,
        ];
        assert(out@ =~= self.spec_octets());
        out
    }

    /// The broadcast address of the network that `self` lies in under
    /// `netmask`: every host bit set.
    pub fn broadcast_under(&self, netmask: &Ipv4Address) -> (out: Ipv4Address)
        ensures
            out.bits == self.bits | !netmask.bits,
    {
        Ipv4Address { bits: self.bits | !netmask.bits }
    }
}

} // verus!
