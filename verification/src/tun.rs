//! The queue handle: one data-path handle plus the adapter it belongs to,
//! shared with the handles of the adapter's other queues.

use crate::address::Ipv4Address;
use crate::allocation::{
    lemma_success_counts_every_queue, requested_unit_of, step_relation, AllocAction, AllocEvent,
    Allocation,
};
use crate::error::Error;
use crate::framer::{concat, framed, segment_views, HEADER_LEN};
use crate::interface::{
    address_step, broadcast_step, flags_step, mtu_step, AddressKind, ControlReply, Interface,
    Params, Step,
};
use crate::io::{recv_buffer, recv_step, sent, IoStep, ReadOutcome, TunIo};
use std::sync::Arc;
use vstd::prelude::*;

verus! {

/// One queue of an adapter.
pub struct Tun {
    iface: Arc<Interface>,
    io: TunIo,
}

/// The next thing to do while a whole buffer is being sent.
#[derive(Clone, Copy, Debug, PartialEq, Eq)]
pub enum SendAll {
    /// Send what lies from this offset on.
    Send(usize),
    /// The operation is over.
    Done(Result<(), Error>),
}

/// What is to be closed when a queue handle goes.
#[derive(Clone, Copy, Debug, PartialEq, Eq)]
pub struct Released {
    /// The data-path handle of the queue.
    pub fd: i32,
    /// The adapter's control channel, where no other queue handle is left.
    pub socket: Option<i32>,
}

/// A step of a waiting operation: a device that would block is waited for
/// again; everything else stands.
pub open spec fn waiting(step: IoStep) -> IoStep {
    match step {
        IoStep::Done(Err(Error::WouldBlock)) => IoStep::Retry,
        other => other,
    }
}

/// Sending a whole buffer of `len` bytes of which `done` are accepted,
/// given the result of the last send: an error ends it, a send that
/// accepted nothing ends it as `WriteZero`, and it succeeds once nothing
/// remains. An empty remainder succeeds without any send.
pub open spec fn send_all_step(len: nat, done: nat, last: Option<Result<usize, Error>>) -> SendAll {
    match last {
        None => if done >= len {
            SendAll::Done(Ok(()))
        } else {
            SendAll::Send(done as usize)
        },
        Some(Err(e)) => SendAll::Done(Err(e)),
        Some(Ok(n)) => if n == 0 {
            SendAll::Done(Err(Error::WriteZero))
        } else if done + n >= len {
            SendAll::Done(Ok(()))
        } else {
            SendAll::Send((done + n) as usize)
        },
    }
}

/// `Arc::clone`: another reference to the same shared value.
#[verifier::external_body]
fn share(iface: &Arc<Interface>) -> (other: Arc<Interface>)
    ensures
        other == *iface,
{
    Arc::clone(iface)
}

/// `Arc::into_inner`: the shared value itself where this was the last
/// reference to it, `None` where others are left.
#[verifier::external_body]
fn into_last(iface: Arc<Interface>) -> (last: Option<Interface>)
    ensures
        last matches Some(inner) ==> inner == *iface,
{
    Arc::into_inner(iface)
}

impl Tun {
    /// The adapter that the queue belongs to.
    pub closed spec fn spec_iface(&self) -> Interface {
        *self.iface
    }

    /// The descriptor of the queue.
    pub closed spec fn spec_fd(&self) -> i32 {
        self.io.0
    }

    /// The handle of the first queue of an allocated adapter.
    pub fn new(iface: Interface) -> (tun: Tun)
        requires
            iface.spec_files().len() > 0,
        ensures
            tun.spec_iface() == iface,
            tun.spec_fd() == iface.spec_files()[0],
    {
        let fd: i32 = iface.files()[0];
        Tun { iface: Arc::new(iface), io: TunIo::from(fd) }
    }

    /// The handles of an allocated adapter, one per queue and in the order
    /// of its files; all of them share the adapter.
    pub fn new_mq(iface: Interface) -> (tuns: Vec<Tun>)
        ensures
            tuns@.len() == iface.spec_files().len(),
            forall|i: int|
                0 <= i < tuns@.len() ==> (#[trigger] tuns@[i]).spec_iface() == iface && tuns@[i].spec_fd()
                    == iface.spec_files()[i],
    {
        let shared: Arc<Interface> = Arc::new(iface);
        let mut tuns: Vec<Tun> = Vec::new();
        let mut i: usize = 0;
        while i < shared.files().len()
            invariant
                *shared == iface,
                i <= iface.spec_files().len(),
                tuns@.len() == i,
                forall|j: int|
                    0 <= j < i ==> (#[trigger] tuns@[j]).spec_iface() == iface && tuns@[j].spec_fd()
                        == iface.spec_files()[j],
            decreases iface.spec_files().len() - i,
        {
            let fd: i32 = shared.files()[i];
            tuns.push(Tun { iface: share(&shared), io: TunIo::from(fd) });
            i += 1;
        }
        tuns
    }

    /// Starts the allocation of an adapter with `queues` queues: the state to
    /// carry and the first thing to do.
    pub fn allocate(params: &Params, queues: usize) -> (start: (Allocation, AllocAction))
        requires
            queues >= 1,
        ensures
            Allocation::spec_begin(start, requested_unit_of(params.name), queues),
    {
        Allocation::start(params, queues)
    }

    /// The descriptor of the queue.
    pub fn as_raw_fd(&self) -> (fd: i32)
        ensures
            fd == self.spec_fd(),
    {
        self.io.as_raw_fd()
    }

    /// Receives a packet, waiting again where the device turns out not to
    /// be ready.
    pub fn recv(&self, buf: &mut Vec<u8>, outcome: Option<&ReadOutcome>) -> (step: IoStep)
        requires
            old(buf).len() + HEADER_LEN <= usize::MAX,
            outcome matches Some(o) ==> o.fits(old(buf)@.len()),
        ensures
            step == waiting(recv_step(old(buf)@.len(), outcome)),
            final(buf)@ == recv_buffer(old(buf)@, outcome),
            final(buf)@.len() == old(buf)@.len(),
            step matches IoStep::Done(Ok(count)) ==> count <= old(buf)@.len(),
    {
        match self.io.recv(buf, outcome) {
            IoStep::Done(Err(Error::WouldBlock)) => IoStep::Retry,
            other => other,
        }
    }

    /// Sends a packet, waiting again where the device turns out not to be
    /// ready. The count reported excludes the header.
    pub fn send(&self, buf: &[u8], written: Option<Result<usize, Error>>) -> (step: IoStep)
        ensures
            match written {
                None => step matches IoStep::Write(bytes) && bytes@ == framed(buf@),
                Some(w) => step == waiting(IoStep::Done(sent(w))),
            },
    {
        match self.io.send(buf, written) {
            IoStep::Done(Err(Error::WouldBlock)) => IoStep::Retry,
            other => other,
        }
    }

    /// Sends a whole buffer by repeated sends of what remains. `done` is the
    /// number of bytes accepted before the last send, `last` the result of
    /// that send, or `None` before the first.
    pub fn send_all(&self, buf: &[u8], done: usize, last: Option<Result<usize, Error>>) -> (step:
        SendAll)
        requires
            done <= buf@.len(),
            last matches Some(Ok(n)) ==> n <= buf@.len() - done,
        ensures
            step == send_all_step(buf@.len(), done as nat, last),
    {
        match last {
            None => if done >= buf.len() {
                SendAll::Done(Ok(()))
            } else {
                SendAll::Send(done)
            },
            Some(Err(e)) => SendAll::Done(Err(e)),
            Some(Ok(n)) => if n == 0 {
                SendAll::Done(Err(Error::WriteZero))
            } else if n >= buf.len() - done {
                SendAll::Done(Ok(()))
            } else {
                SendAll::Send(done + n)
            },
        }
    }

    /// Sends several segments as one packet, waiting again where the device
    /// turns out not to be ready.
    pub fn send_vectored(&self, bufs: &[&[u8]], written: Option<Result<usize, Error>>) -> (step:
        IoStep)
        ensures
            match written {
                None => step matches IoStep::Write(bytes) && bytes@ == framed(
                    concat(segment_views(bufs@)),
                ),
                Some(w) => step == waiting(IoStep::Done(sent(w))),
            },
    {
        match self.io.sendv(bufs, written) {
            IoStep::Done(Err(Error::WouldBlock)) => IoStep::Retry,
            other => other,
        }
    }

    /// Receives a packet without waiting: a device that would block is
    /// reported as `WouldBlock`.
    pub fn try_recv(&self, buf: &mut Vec<u8>, outcome: Option<&ReadOutcome>) -> (step: IoStep)
        requires
            old(buf).len() + HEADER_LEN <= usize::MAX,
            outcome matches Some(o) ==> o.fits(old(buf)@.len()),
        ensures
            step == recv_step(old(buf)@.len(), outcome),
            final(buf)@ == recv_buffer(old(buf)@, outcome),
            final(buf)@.len() == old(buf)@.len(),
            step matches IoStep::Done(Ok(count)) ==> count <= old(buf)@.len(),
    {
        self.io.recv(buf, outcome)
    }

    /// Sends a packet without waiting.
    pub fn try_send(&self, buf: &[u8], written: Option<Result<usize, Error>>) -> (step: IoStep)
        ensures
            match written {
                None => step matches IoStep::Write(bytes) && bytes@ == framed(buf@),
                Some(w) => step == IoStep::Done(sent(w)),
            },
    {
        self.io.send(buf, written)
    }

    /// Sends several segments as one packet without waiting.
    pub fn try_send_vectored(&self, bufs: &[&[u8]], written: Option<Result<usize, Error>>) -> (step:
        IoStep)
        ensures
            match written {
                None => step matches IoStep::Write(bytes) && bytes@ == framed(
                    concat(segment_views(bufs@)),
                ),
                Some(w) => step == IoStep::Done(sent(w)),
            },
    {
        self.io.sendv(bufs, written)
    }

    /// The name of the adapter.
    pub fn name(&self) -> (name: &str)
        ensures
            name@ == self.spec_iface().spec_name(),
    {
        self.iface.name()
    }

    /// Reads the adapter's MTU.
    pub fn mtu(&self, replies: &[ControlReply]) -> (step: Step<i32>)
        ensures
            step == mtu_step(None, replies@),
    {
        self.iface.mtu(None, replies)
    }

    /// Reads the adapter's address.
    pub fn address(&self, replies: &[ControlReply]) -> (step: Step<Ipv4Address>)
        ensures
            step == address_step(AddressKind::Address, None, replies@),
    {
        self.iface.address(None, replies)
    }

    /// Reads the adapter's destination address.
    pub fn destination(&self, replies: &[ControlReply]) -> (step: Step<Ipv4Address>)
        ensures
            step == address_step(AddressKind::Destination, None, replies@),
    {
        self.iface.destination(None, replies)
    }

    /// Reads the adapter's broadcast address.
    pub fn broadcast(&self, replies: &[ControlReply]) -> (step: Step<Ipv4Address>)
        ensures
            step == broadcast_step(None, replies@),
    {
        self.iface.broadcast(None, replies)
    }

    /// Reads the adapter's netmask.
    pub fn netmask(&self, replies: &[ControlReply]) -> (step: Step<Ipv4Address>)
        ensures
            step == address_step(AddressKind::Netmask, None, replies@),
    {
        self.iface.netmask(None, replies)
    }

    /// Reads the adapter's flags.
    pub fn flags(&self, replies: &[ControlReply]) -> (step: Step<i16>)
        ensures
            step == flags_step(None, replies@),
    {
        self.iface.flags(None, replies)
    }

    /// What a queue handle with the descriptor `fd` leaves to be closed:
    /// the descriptor, and the control channel of the adapter where `last`
    /// holds the adapter, which the last handle to go gets.
    pub fn released_by(fd: i32, last: Option<Interface>) -> (released: Released)
        ensures
            released.fd == fd,
            released.socket == match last {
                Some(iface) => Some(iface.spec_socket()),
                None => None,
            },
    {
        let socket: Option<i32> = match &last {
            Some(iface) => Some(iface.socket()),
            None => None,
        };
        Released { fd, socket }
    }

    /// Gives up the queue handle. Its own descriptor is always to be
    /// closed; the adapter's control channel only by the last handle of
    /// the adapter to go, so each is closed once.
    pub fn release(self) -> (released: Released)
        ensures
            released.fd == self.spec_fd(),
            released.socket matches Some(socket) ==> socket == self.spec_iface().spec_socket(),
    {
        let Tun { iface, io } = self;
        let fd: i32 = io.as_raw_fd();
        Tun::released_by(fd, into_last(iface))
    }

    /// The adapter that the queue belongs to.
    pub fn interface(&self) -> (iface: &Interface)
        ensures
            *iface == self.spec_iface(),
    {
        &self.iface
    }
}

/// Every handle made for an adapter carries the adapter's name, so all of
/// them carry the same.
pub proof fn lemma_handles_share_name(iface: Interface, tuns: Seq<Tun>, i: int, j: int)
    requires
        0 <= i < tuns.len(),
        0 <= j < tuns.len(),
        forall|k: int| 0 <= k < tuns.len() ==> (#[trigger] tuns[k]).spec_iface() == iface,
    ensures
        tuns[i].spec_iface().spec_name() == tuns[j].spec_iface().spec_name(),
        tuns[i].spec_iface().spec_name() == iface.spec_name(),
{
}

/// An allocation of `n` queues yields `n` queue handles of one name: where
/// the last step of an allocation succeeded, the adapter made of its state
/// has a file for every queue, and the handles made for that adapter are as
/// many and all carry the name that the allocation recorded.
pub proof fn lemma_allocation_yields_one_handle_per_queue(
    before: Allocation,
    event: AllocEvent,
    after: Allocation,
    iface: Interface,
    tuns: Seq<Tun>,
    i: int,
    j: int,
)
    requires
        before.wf(),
        before.accepts(&event),
        step_relation(before, event, after, AllocAction::Done(Ok(()))),
        after.queues == before.queues,
        iface.spec_files() == after.fds@,
        iface.spec_name() == after.name@,
        tuns.len() == iface.spec_files().len(),
        forall|k: int| 0 <= k < tuns.len() ==> (#[trigger] tuns[k]).spec_iface() == iface,
        0 <= i < tuns.len(),
        0 <= j < tuns.len(),
    ensures
        tuns.len() == after.queues,
        tuns[i].spec_iface().spec_name() == tuns[j].spec_iface().spec_name(),
        tuns[i].spec_iface().spec_name() == after.name@,
{
    lemma_success_counts_every_queue(before, event, after, AllocAction::Done(Ok(())));
}

/// Every data-path handle of an adapter belongs to exactly one queue
/// handle: the descriptors of the handles, in order, are the adapter's files.
pub proof fn lemma_handles_own_files(iface: Interface, tuns: Seq<Tun>)
    requires
        tuns.len() == iface.spec_files().len(),
        forall|k: int| 0 <= k < tuns.len() ==> (#[trigger] tuns[k]).spec_fd() == iface.spec_files()[k],
    ensures
        Seq::new(tuns.len(), |k: int| tuns[k].spec_fd()) == iface.spec_files(),
{
    assert(Seq::new(tuns.len(), |k: int| tuns[k].spec_fd()) =~= iface.spec_files());
}

/// Sending an empty buffer succeeds at once, with no send at all.
pub proof fn lemma_send_all_empty()
    ensures
        send_all_step(0, 0, None) == SendAll::Done(Ok(())),
{
}

/// While a whole buffer is being sent, every further send starts behind the
/// last one and inside the buffer, so the sends come to an end.
pub proof fn lemma_send_all_advances(len: nat, done: nat, n: usize)
    requires
        done <= len,
        n <= len - done,
        len <= usize::MAX,
    ensures
        send_all_step(len, done, Some(Ok(n))) matches SendAll::Send(from) ==> done < from < len,
        send_all_step(len, done, Some(Ok(n))) == SendAll::Done(Ok(())) <==> n > 0 && done + n == len,
{
}

} // verus!
