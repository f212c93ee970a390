//! The control structure that the operating system reads and fills on the
//! control channel: sixteen bytes of interface name, zero padded, followed by
//! sixteen bytes that hold one value (an MTU, a flag word or a socket address).

use crate::address::{bits_of, lemma_bits_of_octets, octets_of, Ipv4Address};
use vstd::prelude::*;
use vstd::string::StringSliceAdditionalSpecFns;

verus! {

/// Length of the name field, terminator included.
pub const NAME_LEN: usize = 16;

/// Length of the whole control structure.
pub const REQUEST_LEN: usize = 32;

/// Address family of IPv4 in a socket address.
pub const FAMILY_INET: u8 = 2;

/// Length byte of an IPv4 socket address.
pub const SOCKADDR_LEN: u8 = 16;

/// Sets the adapter's address.
pub const SIOCSIFADDR: u64 = 0x8020690c;

/// Sets the address of the adapter's peer.
pub const SIOCSIFDSTADDR: u64 = 0x8020690e;

/// Sets the adapter's flags.
pub const SIOCSIFFLAGS: u64 = 0x80206910;

/// Reads the adapter's flags.
pub const SIOCGIFFLAGS: u64 = 0xc0206911;

/// Sets the adapter's MTU.
pub const SIOCSIFMTU: u64 = 0x80206934;

/// Reads the adapter's MTU.
pub const SIOCGIFMTU: u64 = 0xc0206935;

/// Sets the adapter's netmask.
pub const SIOCSIFNETMASK: u64 = 0x80206916;

/// Reads the adapter's netmask.
pub const SIOCGIFNETMASK: u64 = 0xc0206925;

/// Reads the adapter's address.
pub const SIOCGIFADDR: u64 = 0xc0206921;

/// Reads the address of the adapter's peer.
pub const SIOCGIFDSTADDR: u64 = 0xc0206922;

/// One query or change of an adapter-wide parameter.
#[derive(Clone, Copy, Debug, PartialEq, Eq, Structural)]
pub enum ControlCall {
    GetMtu,
    SetMtu(i32),
    GetAddress,
    SetAddress(Ipv4Address),
    GetNetmask,
    SetNetmask(Ipv4Address),
    GetDestination,
    SetDestination(Ipv4Address),
    GetFlags,
    SetFlags(i16),
}

/// A control call as the operating system takes it.
#[derive(Clone, Debug, PartialEq, Eq)]
pub struct Request {
    pub code: u64,
    pub bytes: Vec<u8>,
}

/// The request code of each call.
pub open spec fn code_of(call: ControlCall) -> u64 {
    match call {
        ControlCall::GetMtu => SIOCGIFMTU,
        ControlCall::SetMtu(_) => SIOCSIFMTU,
        ControlCall::GetAddress => SIOCGIFADDR,
        ControlCall::SetAddress(_) => SIOCSIFADDR,
        ControlCall::GetNetmask => SIOCGIFNETMASK,
        ControlCall::SetNetmask(_) => SIOCSIFNETMASK,
        ControlCall::GetDestination => SIOCGIFDSTADDR,
        ControlCall::SetDestination(_) => SIOCSIFDSTADDR,
        ControlCall::GetFlags => SIOCGIFFLAGS,
        ControlCall::SetFlags(_) => SIOCSIFFLAGS,
    }
}

/// `n` zero bytes.
pub open spec fn zeros(n: nat) -> Seq<u8> {
    Seq::new(n, |i: int| 0u8)
}

/// The name field: at most fifteen bytes of the name, then zeros.
pub open spec fn name_field(name: Seq<u8>) -> Seq<u8> {
    Seq::new(
        16,
        |i: int|
            if i < name.len() && i < 15 {
                name[i]
            } else {
                0u8
            },
    )
}

/// A 32-bit value in the byte order of the machine's control structures,
/// lowest byte first.
pub open spec fn low_first(x: u32) -> Seq<u8> {
    seq![
        (x & 0xff) as u8,
        ((x >> 8) & 0xff) as u8,
        ((x >> 16) & 0xff) as u8,
        ((x >> 24) & 0xff) as u8,
    ]
}

/// The 32-bit value of four bytes, lowest first.
pub open spec fn word_of(b0: u8, b1: u8, b2: u8, b3: u8) -> u32 {
    (b0 as u32) | ((b1 as u32) << 8) | ((b2 as u32) << 16) | ((b3 as u32) << 24)
}

/// The 16-bit value of two bytes, lowest first.
pub open spec fn half_of(b0: u8, b1: u8) -> u16 {
    (b0 as u16) | ((b1 as u16) << 8)
}

/// The value field that carries an MTU.
pub open spec fn mtu_field(mtu: i32) -> Seq<u8> {
    low_first(mtu as u32) + zeros(12)
}

/// The value field that carries a flag word.
pub open spec fn flags_field(flags: i16) -> Seq<u8> {
    seq![((flags as u16) & 0xff) as u8, (((flags as u16) >> 8) & 0xff) as u8] + zeros(14)
}

/// The value field that carries an IPv4 socket address: length, family, a
/// zero port, the four octets in network order, zero padding.
pub open spec fn address_field(addr: Ipv4Address) -> Seq<u8> {
    seq![SOCKADDR_LEN, FAMILY_INET, 0u8, 0u8] + octets_of(addr.bits) + zeros(8)
}

/// The value field of each call; a query hands over an empty field.
pub open spec fn value_field(call: ControlCall) -> Seq<u8> {
    match call {
        ControlCall::SetMtu(mtu) => mtu_field(mtu),
        ControlCall::SetFlags(flags) => flags_field(flags),
        ControlCall::SetAddress(addr) => address_field(addr),
        ControlCall::SetNetmask(addr) => address_field(addr),
        ControlCall::SetDestination(addr) => address_field(addr),
        _ => zeros(16),
    }
}

/// The control structure of a call on the interface of the given name.
pub open spec fn encoded(name: Seq<u8>, call: ControlCall) -> Seq<u8> {
    name_field(name) + value_field(call)
}

/// The MTU that a control structure carries; zero if it is not a control structure.
pub open spec fn mtu_of(req: Seq<u8>) -> i32 {
    if req.len() == 32 {
        word_of(req[16], req[17], req[18], req[19]) as i32
    } else {
        0i32
    }
}

/// The flag word that a control structure carries; zero if it is not a control structure.
pub open spec fn flags_of(req: Seq<u8>) -> i16 {
    if req.len() == 32 {
        half_of(req[16], req[17]) as i16
    } else {
        0i16
    }
}

/// The address that a control structure carries; 0.0.0.0 if it is not a
/// control structure or holds no IPv4 socket address.
pub open spec fn address_of(req: Seq<u8>) -> Ipv4Address {
    if req.len() == 32 && req[17] == FAMILY_INET {
        Ipv4Address { bits: bits_of(req[20], req[21], req[22], req[23]) }
    } else {
        Ipv4Address { bits: 0 }
    }
}

/// The request code of a call.
pub fn request_code(call: ControlCall) -> (code: u64)
    ensures
        code == code_of(call),
{
    match call {
        ControlCall::GetMtu => SIOCGIFMTU,
        ControlCall::SetMtu(_) => SIOCSIFMTU,
        ControlCall::GetAddress => SIOCGIFADDR,
        ControlCall::SetAddress(_) => SIOCSIFADDR,
        ControlCall::GetNetmask => SIOCGIFNETMASK,
        ControlCall::SetNetmask(_) => SIOCSIFNETMASK,
        ControlCall::GetDestination => SIOCGIFDSTADDR,
        ControlCall::SetDestination(_) => SIOCSIFDSTADDR,
        ControlCall::GetFlags => SIOCGIFFLAGS,
        ControlCall::SetFlags(_) => SIOCSIFFLAGS,
    }
}

/// Appends `n` zero bytes.
pub(crate) fn pad(bytes: &mut Vec<u8>, n: usize)
    ensures
        final(bytes)@ == old(bytes)@ + zeros(n as nat),
{
    let mut i: usize = 0;
    while i < n
        invariant
            i <= n,
            bytes@ == old(bytes)@ + zeros(i as nat),
        decreases n - i,
    {
        bytes.push(0u8);
        i += 1;
        assert(bytes@ =~= old(bytes)@ + zeros(i as nat));
    }
}

fn push_address(bytes: &mut Vec<u8>, addr: Ipv4Address)
    ensures
        final(bytes)@ == old(bytes)@ + address_field(addr),
{
    let octets: [u8; 4] = addr.octets();
    let ghost before = bytes@;
    bytes.push(SOCKADDR_LEN);
    bytes.push(FAMILY_INET);
    bytes.push(0u8);
    bytes.push(0u8);
    bytes.push(octets[0]);
    bytes.push(octets[1]);
    bytes.push(octets[2]);
    bytes.push(octets[3]);
    assert(bytes@ =~= before + (seq![SOCKADDR_LEN, FAMILY_INET, 0u8, 0u8] + octets_of(addr.bits)));
    pad(bytes, 8);
    assert(bytes@ =~= before + address_field(addr));
}

/// Lays out the control structure of `call` for the interface named `name`.
pub fn encode(name: &str, call: ControlCall) -> (req: Request)
    ensures
        req.code == code_of(call),
        req.bytes@ == encoded(name.spec_bytes(), call),
        req.bytes@.len() == REQUEST_LEN,
{
    let raw: &[u8] = name.as_bytes();
    let mut bytes: Vec<u8> = Vec::new();
    let mut i: usize = 0;
    while i < NAME_LEN
        invariant
            i <= 16,
            bytes@ == name_field(raw@).take(i as int),
        decreases 16 - i,
    {
        let b: u8 = if i < raw.len() && i < 15 {
            raw[i]
        } else {
            0u8
        };
        bytes.push(b);
        i += 1;
        assert(bytes@ =~= name_field(raw@).take(i as int));
    }
    assert(bytes@ =~= name_field(raw@));
    match call {
        ControlCall::SetMtu(mtu) => {
            let x: u32 = mtu as u32;
            assert((x & 0xff) <= 0xff && ((x >> 8) & 0xff) <= 0xff && ((x >> 16) & 0xff) <= 0xff
                && ((x >> 24) & 0xff) <= 0xff) by (bit_vector);
            bytes.push((x & 0xff) as u8);
            bytes.push(((x >> 8) & 0xff) as u8);
            bytes.push(((x >> 16) & 0xff) as u8);
            bytes.push(((x >> 24) & 0xff) as u8);
            assert(bytes@ =~= name_field(raw@) + low_first(x));
            pad(&mut bytes, 12);
            assert(bytes@ =~= name_field(raw@) + mtu_field(mtu));
        },
        ControlCall::SetFlags(flags) => {
            let x: u16 = flags as u16;
            assert((x & 0xff) <= 0xff && ((x >> 8) & 0xff) <= 0xff) by (bit_vector);
            bytes.push((x & 0xff) as u8);
            bytes.push(((x >> 8) & 0xff) as u8);
            assert(bytes@ =~= name_field(raw@) + seq![(x & 0xff) as u8, ((x >> 8) & 0xff) as u8]);
            pad(&mut bytes, 14);
            assert(bytes@ =~= name_field(raw@) + flags_field(flags));
        },
        ControlCall::SetAddress(addr) => {
            push_address(&mut bytes, addr);
        },
        ControlCall::SetNetmask(addr) => {
            push_address(&mut bytes, addr);
        },
        ControlCall::SetDestination(addr) => {
            push_address(&mut bytes, addr);
        },
        _ => {
            pad(&mut bytes, 16);
        },
    }
    Request { code: request_code(call), bytes }
}

/// Reads the MTU out of a control structure that the operating system filled.
pub fn decode_mtu(req: &[u8]) -> (mtu: i32)
    ensures
        mtu == mtu_of(req@),
{
    if req.len() != REQUEST_LEN {
        return 0;
    }
    let word: u32 = (req[16] as u32) | ((req[17] as u32) << 8) | ((req[18] as u32) << 16) | ((
    req[19] as u32) << 24);
    word as i32
}

/// Reads the flag word out of a control structure that the operating system filled.
pub fn decode_flags(req: &[u8]) -> (flags: i16)
    ensures
        flags == flags_of(req@),
{
    if req.len() != REQUEST_LEN {
        return 0;
    }
    let half: u16 = (req[16] as u16) | ((req[17] as u16) << 8);
    half as i16
}

/// Reads the IPv4 address out of a control structure that the operating system filled.
pub fn decode_address(req: &[u8]) -> (addr: Ipv4Address)
    ensures
        addr == address_of(req@),
{
    if req.len() != REQUEST_LEN || req[17] != FAMILY_INET {
        return Ipv4Address::unspecified();
    }
    Ipv4Address::new(req[20], req[21], req[22], req[23])
}

/// An MTU survives the control structure unchanged.
pub proof fn lemma_mtu_round_trip(name: Seq<u8>, mtu: i32)
    ensures
        mtu_of(encoded(name, ControlCall::SetMtu(mtu))) == mtu,
{
    let x = mtu as u32;
    let req = encoded(name, ControlCall::SetMtu(mtu));
    assert(req[16] == (x & 0xff) as u8 && req[17] == ((x >> 8) & 0xff) as u8 && req[18] == ((x
        >> 16) & 0xff) as u8 && req[19] == ((x >> 24) & 0xff) as u8);
    assert(((((x & 0xff) as u8) as u32) | ((((x >> 8) & 0xff) as u8) as u32) << 8 | ((((x >> 16)
        & 0xff) as u8) as u32) << 16 | ((((x >> 24) & 0xff) as u8) as u32) << 24) as i32 == mtu)
        by (bit_vector)
        requires
            x == mtu as u32,
    ;
}

/// A flag word survives the control structure unchanged.
pub proof fn lemma_flags_round_trip(name: Seq<u8>, flags: i16)
    ensures
        flags_of(encoded(name, ControlCall::SetFlags(flags))) == flags,
{
    let x = flags as u16;
    let req = encoded(name, ControlCall::SetFlags(flags));
    assert(req[16] == (x & 0xff) as u8 && req[17] == ((x >> 8) & 0xff) as u8);
    assert(((((x & 0xff) as u8) as u16) | ((((x >> 8) & 0xff) as u8) as u16) << 8) as i16 == flags)
        by (bit_vector)
        requires
            x == flags as u16,
    ;
}

/// An address survives the control structure unchanged, whichever of the
/// three address calls carries it.
pub proof fn lemma_address_round_trip(name: Seq<u8>, addr: Ipv4Address)
    ensures
        address_of(encoded(name, ControlCall::SetAddress(addr))) == addr,
        address_of(encoded(name, ControlCall::SetNetmask(addr))) == addr,
        address_of(encoded(name, ControlCall::SetDestination(addr))) == addr,
{
    let req = encoded(name, ControlCall::SetAddress(addr));
    assert(encoded(name, ControlCall::SetNetmask(addr)) == req);
    assert(encoded(name, ControlCall::SetDestination(addr)) == req);
    assert(req.len() == 32);
    assert(req[17] == FAMILY_INET);
    assert(req[20] == octets_of(addr.bits)[0] && req[21] == octets_of(addr.bits)[1] && req[22]
        == octets_of(addr.bits)[2] && req[23] == octets_of(addr.bits)[3]);
    lemma_bits_of_octets(addr.bits);
}

/// Every control structure is thirty-two bytes long and starts with the name field.
pub proof fn lemma_encoded_layout(name: Seq<u8>, call: ControlCall)
    ensures
        encoded(name, call).len() == REQUEST_LEN,
        encoded(name, call).subrange(0, 16) == name_field(name),
        encoded(name, call)[15] == 0u8,
{
    assert(encoded(name, call).subrange(0, 16) =~= name_field(name));
}

} // verus!
