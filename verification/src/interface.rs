//! The configured adapter and the rules of its control plane.
//!
//! An accessor never talks to the operating system. It is handed the replies
//! that the control channel has given to its calls so far, oldest first, and
//! answers with the next call to make or with the finished result. A driver
//! starts with no replies, performs each call it is told to make, appends the
//! reply and asks again.

use crate::address::Ipv4Address;
use crate::error::Error;
use crate::request::{
    address_of, code_of, decode_address, decode_flags, decode_mtu, encode, encoded, flags_of,
    lemma_address_round_trip, lemma_flags_round_trip, lemma_mtu_round_trip, mtu_of, ControlCall,
    Request,
};
use vstd::prelude::*;
use vstd::slice::slice_subrange;
use vstd::string::StringSliceAdditionalSpecFns;

verus! {

/// What the control channel answered to one call.
#[derive(Clone, Debug, PartialEq, Eq)]
pub enum ControlReply {
    /// The call succeeded; the bytes are the control structure as the
    /// operating system left it.
    Done(Vec<u8>),
    /// The call failed with this OS error code.
    Failed(i32),
}

/// Where an operation of the control plane stands.
#[derive(Debug, PartialEq, Eq)]
pub enum Step<T> {
    /// This call is to be made next.
    Call(ControlCall),
    /// The operation is over.
    Done(Result<T, Error>),
}

/// The requested configuration of an adapter.
#[derive(Clone, Debug)]
pub struct Params {
    pub name: Option<String>,
    pub flags: i16,
    pub persist: bool,
    pub up: bool,
    pub mtu: Option<i32>,
    pub owner: Option<i32>,
    pub group: Option<i32>,
    pub address: Option<Ipv4Address>,
    pub destination: Option<Ipv4Address>,
    pub broadcast: Option<Ipv4Address>,
    pub netmask: Option<Ipv4Address>,
}

/// Which of the three addresses of an adapter an accessor speaks of.
#[derive(Clone, Copy, Debug, PartialEq, Eq, Structural)]
pub enum AddressKind {
    Address,
    Netmask,
    Destination,
}

/// One allocated adapter: its data-path handles, one per queue, its control
/// channel and its name.
pub struct Interface {
    fds: Vec<i32>,
    socket: i32,
    name: String,
}

/// The flag word that brings an adapter up: up and running.
pub open spec fn up_flags() -> i16 {
    0x41i16
}

/// The call that reads an address, or writes it where a value is given.
pub open spec fn address_call(kind: AddressKind, value: Option<Ipv4Address>) -> ControlCall {
    match (kind, value) {
        (AddressKind::Address, Some(v)) => ControlCall::SetAddress(v),
        (AddressKind::Address, None) => ControlCall::GetAddress,
        (AddressKind::Netmask, Some(v)) => ControlCall::SetNetmask(v),
        (AddressKind::Netmask, None) => ControlCall::GetNetmask,
        (AddressKind::Destination, Some(v)) => ControlCall::SetDestination(v),
        (AddressKind::Destination, None) => ControlCall::GetDestination,
    }
}

/// The MTU accessor: one call, a write where a value is given and a read
/// otherwise; the result is the MTU that the control structure holds after it.
pub open spec fn mtu_step(mtu: Option<i32>, replies: Seq<ControlReply>) -> Step<i32> {
    if replies.len() == 0 {
        Step::Call(
            match mtu {
                Some(v) => ControlCall::SetMtu(v),
                None => ControlCall::GetMtu,
            },
        )
    } else {
        match replies[0] {
            ControlReply::Failed(code) => Step::Done(Err(Error::Os(code))),
            ControlReply::Done(bytes) => Step::Done(Ok(mtu_of(bytes@))),
        }
    }
}

/// An address accessor: one call; a write echoes the value written, a read
/// yields the address that the operating system filled in.
pub open spec fn address_step(
    kind: AddressKind,
    value: Option<Ipv4Address>,
    replies: Seq<ControlReply>,
) -> Step<Ipv4Address> {
    if replies.len() == 0 {
        Step::Call(address_call(kind, value))
    } else {
        match replies[0] {
            ControlReply::Failed(code) => Step::Done(Err(Error::Os(code))),
            ControlReply::Done(bytes) => Step::Done(
                Ok(
                    match value {
                        Some(v) => v,
                        None => address_of(bytes@),
                    },
                ),
            ),
        }
    }
}

/// The flags accessor: the current flags are read first; a given value is
/// combined with them by OR and written back, and the result is the flag word
/// that the control structure holds after the last call.
pub open spec fn flags_step(flags: Option<i16>, replies: Seq<ControlReply>) -> Step<i16> {
    if replies.len() == 0 {
        Step::Call(ControlCall::GetFlags)
    } else {
        match (replies[0], flags) {
            (ControlReply::Failed(code), _) => Step::Done(Err(Error::Os(code))),
            (ControlReply::Done(bytes), None) => Step::Done(Ok(flags_of(bytes@))),
            (ControlReply::Done(bytes), Some(f)) => if replies.len() == 1 {
                Step::Call(ControlCall::SetFlags(flags_of(bytes@) | f))
            } else {
                match replies[1] {
                    ControlReply::Failed(code) => Step::Done(Err(Error::Os(code))),
                    ControlReply::Done(written) => Step::Done(Ok(flags_of(written@))),
                }
            },
        }
    }
}

/// The broadcast accessor. A point-to-point adapter has no broadcast address
/// of its own: a write is accepted without any call, and a read computes the
/// address from the adapter's address and netmask, or yields 255.255.255.255
/// where either cannot be read.
pub open spec fn broadcast_step(broadcast: Option<Ipv4Address>, replies: Seq<ControlReply>) -> Step<
    Ipv4Address,
> {
    match broadcast {
        Some(v) => Step::Done(Ok(v)),
        None => if replies.len() == 0 {
            Step::Call(ControlCall::GetAddress)
        } else if replies.len() == 1 {
            Step::Call(ControlCall::GetNetmask)
        } else {
            match (replies[0], replies[1]) {
                (ControlReply::Done(addr), ControlReply::Done(mask)) => Step::Done(
                    Ok(
                        Ipv4Address {
                            bits: address_of(addr@).bits | !address_of(mask@).bits,
                        },
                    ),
                ),
                _ => Step::Done(Ok(Ipv4Address { bits: 0xffff_ffffu32 })),
            }
        },
    }
}

/// The writes that a configuration asks for, in the order in which they are
/// made: MTU, address, netmask, destination.
pub open spec fn setters(params: Params) -> Seq<ControlCall> {
    (match params.mtu {
        Some(v) => seq![ControlCall::SetMtu(v)],
        None => Seq::empty(),
    }) + (match params.address {
        Some(v) => seq![ControlCall::SetAddress(v)],
        None => Seq::empty(),
    }) + (match params.netmask {
        Some(v) => seq![ControlCall::SetNetmask(v)],
        None => Seq::empty(),
    }) + (match params.destination {
        Some(v) => seq![ControlCall::SetDestination(v)],
        None => Seq::empty(),
    })
}

/// Runs a list of independent calls from position `i` on against the replies:
/// the first failed reply ends the run with its error, the first call without
/// a reply is the next to make, and `None` says that every call succeeded.
pub open spec fn run_plan(plan: Seq<ControlCall>, replies: Seq<ControlReply>, i: int) -> Option<
    Step<()>,
>
    decreases plan.len() - i,
{
    if i < 0 || i >= plan.len() {
        None
    } else if i >= replies.len() {
        Some(Step::Call(plan[i]))
    } else {
        match replies[i] {
            ControlReply::Failed(code) => Some(Step::Done(Err(Error::Os(code)))),
            ControlReply::Done(_) => run_plan(plan, replies, i + 1),
        }
    }
}

/// A step of the flags accessor without its value.
pub open spec fn without_value(step: Step<i16>) -> Step<()> {
    match step {
        Step::Call(call) => Step::Call(call),
        Step::Done(Ok(_)) => Step::Done(Ok(())),
        Step::Done(Err(e)) => Step::Done(Err(e)),
    }
}

/// Applying a configuration: the writes of `setters` in order, then, where
/// the adapter is to come up, the flags accessor with `up_flags`. The first
/// failure ends it; what was written before stays written. A requested
/// broadcast address, owner, group or persistence leads to no call.
pub open spec fn init_step(params: Params, replies: Seq<ControlReply>) -> Step<()> {
    match run_plan(setters(params), replies, 0) {
        Some(step) => step,
        None => if params.up {
            without_value(
                flags_step(Some(up_flags()), replies.skip(setters(params).len() as int)),
            )
        } else {
            Step::Done(Ok(()))
        },
    }
}

/// `libc::IFF_UP` as a flag word; libc defines it as 0x1 on every target that has it.
#[verifier::external_body]
fn iff_up() -> (flag: i16)
    ensures
        flag == 0x1i16,
{
    libc::IFF_UP as i16
}

/// `libc::IFF_RUNNING` as a flag word; libc defines it as 0x40 on every target that has it.
#[verifier::external_body]
fn iff_running() -> (flag: i16)
    ensures
        flag == 0x40i16,
{
    libc::IFF_RUNNING as i16
}

impl Interface {
    /// The data-path handles, one per queue.
    pub closed spec fn spec_files(&self) -> Seq<i32> {
        self.fds@
    }

    /// The name of the adapter.
    pub closed spec fn spec_name(&self) -> Seq<char> {
        self.name@
    }

    /// The name of the adapter as bytes.
    pub closed spec fn spec_name_bytes(&self) -> Seq<u8> {
        vstd::utf8::encode_utf8(self.name@)
    }

    /// The handle of the control channel.
    pub closed spec fn spec_socket(&self) -> i32 {
        self.socket
    }

    /// An adapter of the given name with the given data-path handles, whose
    /// control channel is the open socket `socket`.
    pub fn new(fds: Vec<i32>, name: &str, socket: i32) -> (iface: Interface)
        ensures
            iface.spec_files() == fds@,
            iface.spec_name() == name@,
            iface.spec_name_bytes() == name.spec_bytes(),
            iface.spec_socket() == socket,
    {
        let owned: String = name.to_owned();
        Interface { fds, socket, name: owned }
    }

    /// The data-path handles, one per queue.
    pub fn files(&self) -> (fds: &[i32])
        ensures
            fds@ == self.spec_files(),
    {
        self.fds.as_slice()
    }

    /// The name of the adapter.
    pub fn name(&self) -> (name: &str)
        ensures
            name@ == self.spec_name(),
            name.spec_bytes() == self.spec_name_bytes(),
    {
        self.name.as_str()
    }

    /// The handle of the control channel.
    pub fn socket(&self) -> (fd: i32)
        ensures
            fd == self.spec_socket(),
    {
        self.socket
    }

    /// Lays out a call for this adapter's control channel.
    pub fn request(&self, call: ControlCall) -> (req: Request)
        ensures
            req.code == code_of(call),
            req.bytes@ == encoded(self.spec_name_bytes(), call),
    {
        encode(self.name.as_str(), call)
    }

    /// Reads the MTU, or sets it where a value is given.
    pub fn mtu(&self, mtu: Option<i32>, replies: &[ControlReply]) -> (step: Step<i32>)
        ensures
            step == mtu_step(mtu, replies@),
    {
        if replies.len() == 0 {
            return Step::Call(
                match mtu {
                    Some(v) => ControlCall::SetMtu(v),
                    None => ControlCall::GetMtu,
                },
            );
        }
        match &replies[0] {
            ControlReply::Failed(code) => Step::Done(Err(Error::Os(*code))),
            ControlReply::Done(bytes) => Step::Done(Ok(decode_mtu(bytes.as_slice()))),
        }
    }

    fn address_like(kind: AddressKind, value: Option<Ipv4Address>, replies: &[ControlReply]) -> (step:
        Step<Ipv4Address>)
        ensures
            step == address_step(kind, value, replies@),
    {
        if replies.len() == 0 {
            let call: ControlCall = match (kind, value) {
                (AddressKind::Address, Some(v)) => ControlCall::SetAddress(v),
                (AddressKind::Address, None) => ControlCall::GetAddress,
                (AddressKind::Netmask, Some(v)) => ControlCall::SetNetmask(v),
                (AddressKind::Netmask, None) => ControlCall::GetNetmask,
                (AddressKind::Destination, Some(v)) => ControlCall::SetDestination(v),
                (AddressKind::Destination, None) => ControlCall::GetDestination,
            };
            return Step::Call(call);
        }
        match &replies[0] {
            ControlReply::Failed(code) => Step::Done(Err(Error::Os(*code))),
            ControlReply::Done(bytes) => Step::Done(
                Ok(
                    match value {
                        Some(v) => v,
                        None => decode_address(bytes.as_slice()),
                    },
                ),
            ),
        }
    }

    /// Reads the netmask, or sets it where a value is given.
    pub fn netmask(&self, netmask: Option<Ipv4Address>, replies: &[ControlReply]) -> (step: Step<
        Ipv4Address,
    >)
        ensures
            step == address_step(AddressKind::Netmask, netmask, replies@),
    {
        Self::address_like(AddressKind::Netmask, netmask, replies)
    }

    /// Reads the address, or sets it where a value is given.
    pub fn address(&self, address: Option<Ipv4Address>, replies: &[ControlReply]) -> (step: Step<
        Ipv4Address,
    >)
        ensures
            step == address_step(AddressKind::Address, address, replies@),
    {
        Self::address_like(AddressKind::Address, address, replies)
    }

    /// Reads the destination address, or sets it where a value is given.
    pub fn destination(&self, dst: Option<Ipv4Address>, replies: &[ControlReply]) -> (step: Step<
        Ipv4Address,
    >)
        ensures
            step == address_step(AddressKind::Destination, dst, replies@),
    {
        Self::address_like(AddressKind::Destination, dst, replies)
    }

    /// Reads the broadcast address, or accepts one without materialising it.
    pub fn broadcast(&self, broadcast: Option<Ipv4Address>, replies: &[ControlReply]) -> (step:
        Step<Ipv4Address>)
        ensures
            step == broadcast_step(broadcast, replies@),
    {
        if let Some(v) = broadcast {
            return Step::Done(Ok(v));
        }
        if replies.len() == 0 {
            return Step::Call(ControlCall::GetAddress);
        }
        if replies.len() == 1 {
            return Step::Call(ControlCall::GetNetmask);
        }
        match (&replies[0], &replies[1]) {
            (ControlReply::Done(addr), ControlReply::Done(mask)) => {
                let a: Ipv4Address = decode_address(addr.as_slice());
                let m: Ipv4Address = decode_address(mask.as_slice());
                Step::Done(Ok(a.broadcast_under(&m)))
            },
            _ => Step::Done(Ok(Ipv4Address::all_ones())),
        }
    }

    /// Reads the flags, or adds the given flags to the current ones.
    pub fn flags(&self, flags: Option<i16>, replies: &[ControlReply]) -> (step: Step<i16>)
        ensures
            step == flags_step(flags, replies@),
    {
        if replies.len() == 0 {
            return Step::Call(ControlCall::GetFlags);
        }
        let current: i16 = match &replies[0] {
            ControlReply::Failed(code) => {
                return Step::Done(Err(Error::Os(*code)));
            },
            ControlReply::Done(bytes) => decode_flags(bytes.as_slice()),
        };
        let added: i16 = match flags {
            None => {
                return Step::Done(Ok(current));
            },
            Some(f) => f,
        };
        if replies.len() == 1 {
            return Step::Call(ControlCall::SetFlags(current | added));
        }
        match &replies[1] {
            ControlReply::Failed(code) => Step::Done(Err(Error::Os(*code))),
            ControlReply::Done(written) => Step::Done(Ok(decode_flags(written.as_slice()))),
        }
    }

    /// Applies a configuration to the adapter.
    pub fn init(&self, params: &Params, replies: &[ControlReply]) -> (step: Step<()>)
        ensures
            step == init_step(*params, replies@),
    {
        let mut plan: Vec<ControlCall> = Vec::new();
        if let Some(mtu) = params.mtu {
            plan.push(ControlCall::SetMtu(mtu));
        }
        if let Some(address) = params.address {
            plan.push(ControlCall::SetAddress(address));
        }
        if let Some(netmask) = params.netmask {
            plan.push(ControlCall::SetNetmask(netmask));
        }
        if let Some(destination) = params.destination {
            plan.push(ControlCall::SetDestination(destination));
        }
        assert(plan@ =~= setters(*params));
        let mut i: usize = 0;
        while i < plan.len()
            invariant
                i <= plan.len(),
                i <= replies.len(),
                plan@ == setters(*params),
                run_plan(plan@, replies@, 0) == run_plan(plan@, replies@, i as int),
            decreases plan.len() - i,
        {
            if i >= replies.len() {
                return Step::Call(plan[i]);
            }
            match &replies[i] {
                ControlReply::Failed(code) => {
                    return Step::Done(Err(Error::Os(*code)));
                },
                ControlReply::Done(_) => {},
            }
            i += 1;
        }
        if !params.up {
            return Step::Done(Ok(()));
        }
        let rest: &[ControlReply] = slice_subrange(replies, i, replies.len());
        assert(rest@ =~= replies@.skip(i as int));
        let up: i16 = iff_up() | iff_running();
        assert(0x1i16 | 0x40i16 == 0x41i16) by (bit_vector);
        match self.flags(Some(up), rest) {
            Step::Call(call) => Step::Call(call),
            Step::Done(Ok(_)) => Step::Done(Ok(())),
            Step::Done(Err(e)) => Step::Done(Err(e)),
        }
    }
}

/// What is written is what is read: setting the MTU to `v` makes one write
/// that carries `v`, and where the operating system hands back the structure
/// that was written, reading the MTU yields `v`.
pub proof fn lemma_mtu_set_then_get(name: Seq<u8>, v: i32, stored: ControlReply)
    requires
        stored matches ControlReply::Done(bytes) && bytes@ == encoded(name, ControlCall::SetMtu(v)),
    ensures
        mtu_step(Some(v), Seq::empty()) == Step::<i32>::Call(ControlCall::SetMtu(v)),
        mtu_step(Some(v), seq![stored]) == Step::<i32>::Done(Ok(v)),
        mtu_step(None, seq![stored]) == Step::<i32>::Done(Ok(v)),
{
    lemma_mtu_round_trip(name, v);
}

/// An address, netmask or destination that was set is the one read back,
/// where the operating system hands back the structure that was written.
pub proof fn lemma_address_set_then_get(
    name: Seq<u8>,
    kind: AddressKind,
    v: Ipv4Address,
    stored: ControlReply,
)
    requires
        stored matches ControlReply::Done(bytes) && bytes@ == encoded(
            name,
            address_call(kind, Some(v)),
        ),
    ensures
        address_step(kind, Some(v), seq![stored]) == Step::<Ipv4Address>::Done(Ok(v)),
        address_step(kind, None, seq![stored]) == Step::<Ipv4Address>::Done(Ok(v)),
{
    lemma_address_round_trip(name, v);
}

/// Flags are added, never replaced: with the flag word `current` in place,
/// asking for `f` writes `current | f`, and a later read that finds the
/// written structure yields a word that holds every bit of `current` and of `f`.
pub proof fn lemma_flags_accumulate(name: Seq<u8>, f: i16, current: ControlReply, stored: ControlReply)
    requires
        current is Done,
        stored matches ControlReply::Done(bytes) && bytes@ == encoded(
            name,
            ControlCall::SetFlags(flags_of(current->Done_0@) | f),
        ),
    ensures
        flags_step(Some(f), seq![current]) == Step::<i16>::Call(
            ControlCall::SetFlags(flags_of(current->Done_0@) | f),
        ),
        flags_step(Some(f), seq![current, stored]) == flags_step(None, seq![stored]),
        flags_step(None, seq![stored]) matches Step::Done(Ok(now)) && now == flags_of(
            current->Done_0@,
        ) | f && now & flags_of(current->Done_0@) == flags_of(current->Done_0@) && now & f == f,
{
    let c = flags_of(current->Done_0@);
    lemma_flags_round_trip(name, c | f);
    assert((c | f) & c == c && (c | f) & f == f) by (bit_vector);
}

/// Owner, group, persistence, the requested name and flag word, and a
/// requested broadcast address have no effect on how a configuration is applied.
pub proof fn lemma_init_ignores_unsupported(a: Params, b: Params, replies: Seq<ControlReply>)
    requires
        a.mtu == b.mtu,
        a.address == b.address,
        a.netmask == b.netmask,
        a.destination == b.destination,
        a.up == b.up,
    ensures
        init_step(a, replies) == init_step(b, replies),
{
}

/// Applying a configuration stops at the first failure: once a write has
/// failed, the error stands whatever replies follow.
pub proof fn lemma_init_fails_fast(params: Params, replies: Seq<ControlReply>, more: Seq<ControlReply>)
    requires
        init_step(params, replies) matches Step::Done(Err(_)),
    ensures
        init_step(params, replies + more) == init_step(params, replies),
{
    let plan = setters(params);
    let all = replies + more;
    lemma_run_plan_extends(plan, replies, more, 0);
    if run_plan(plan, replies, 0) is None {
        let n = plan.len() as int;
        lemma_run_plan_none(plan, replies, 0);
        let tail = replies.skip(n);
        assert(all.skip(n) =~= tail + more);
        assert(tail.len() > 0);
        assert((tail + more)[0] == tail[0]);
        if tail.len() > 1 {
            assert((tail + more)[1] == tail[1]);
        }
    }
}

/// A run that ended in an error or in success of every call is not changed by
/// further replies.
proof fn lemma_run_plan_extends(
    plan: Seq<ControlCall>,
    replies: Seq<ControlReply>,
    more: Seq<ControlReply>,
    i: int,
)
    requires
        0 <= i,
    ensures
        run_plan(plan, replies, i) matches Some(Step::Done(_)) ==> run_plan(plan, replies + more, i)
            == run_plan(plan, replies, i),
        run_plan(plan, replies, i) is None ==> run_plan(plan, replies + more, i) is None,
    decreases plan.len() - i,
{
    if i < plan.len() && i < replies.len() {
        assert((replies + more)[i] == replies[i]);
        lemma_run_plan_extends(plan, replies, more, i + 1);
    }
}

/// A run in which every call succeeded has a reply for every call.
proof fn lemma_run_plan_none(plan: Seq<ControlCall>, replies: Seq<ControlReply>, i: int)
    requires
        0 <= i <= plan.len(),
        i <= replies.len(),
        run_plan(plan, replies, i) is None,
    ensures
        replies.len() >= plan.len(),
    decreases plan.len() - i,
{
    if i < plan.len() {
        lemma_run_plan_none(plan, replies, i + 1);
    }
}

} // verus!
