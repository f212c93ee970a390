//! One queue's device handle and the framing rules of its reads and writes.
//!
//! As on the control plane, no function here performs a read or a write. An
//! operation called without an outcome answers with the read or write to
//! attempt; called again with what the device returned, it answers with the
//! result that the caller of the library sees.

use crate::error::Error;
use crate::framer::{
    concat, frame, frame_vectored, framed, lemma_frame_round_trip, payload_count, payload_len,
    segment_views, unframe, unframed, HEADER_LEN,
};
use vstd::prelude::*;

verus! {

/// The next thing to do on the data path.
#[derive(Debug, PartialEq, Eq)]
pub enum IoStep {
    /// Attempt one non-blocking read into a scratch buffer of this length.
    Read(usize),
    /// Attempt one non-blocking write of these bytes.
    Write(Vec<u8>),
    /// The device was not ready after all: clear the readiness, wait for
    /// it, and attempt again.
    Retry,
    /// The operation is over; the count excludes the header.
    Done(Result<usize, Error>),
}

/// What one attempted read left behind.
#[derive(Debug)]
pub struct ReadOutcome {
    /// The scratch buffer after the read.
    pub scratch: Vec<u8>,
    /// The number of bytes read, or the error.
    pub result: Result<usize, Error>,
}

/// The device handle of one queue.
pub struct TunIo(pub i32);

/// The result of a send whose write returned `written`.
pub open spec fn sent(written: Result<usize, Error>) -> Result<usize, Error> {
    match written {
        Ok(n) => Ok(payload_len(n as int) as usize),
        Err(e) => Err(e),
    }
}

/// The step of a receive into a buffer of `len` bytes: first the read to
/// attempt, then the number of payload bytes or the error of the read.
pub open spec fn recv_step(len: nat, outcome: Option<&ReadOutcome>) -> IoStep {
    match outcome {
        None => IoStep::Read((len + HEADER_LEN) as usize),
        Some(o) => match o.result {
            Err(e) => IoStep::Done(Err(e)),
            Ok(n) => IoStep::Done(Ok(payload_len(n as int) as usize)),
        },
    }
}

/// The caller's buffer after a receive: the payload at the front, the rest
/// as it was.
pub open spec fn recv_buffer(before: Seq<u8>, outcome: Option<&ReadOutcome>) -> Seq<u8> {
    match outcome {
        Some(o) => match o.result {
            Ok(n) => unframed(o.scratch@, n as int) + before.skip(payload_len(n as int)),
            Err(_) => before,
        },
        None => before,
    }
}

impl ReadOutcome {
    /// Whether the outcome can be that of a read for a buffer of `len` bytes:
    /// the scratch buffer has the length asked for and holds what was read.
    pub open spec fn fits(&self, len: nat) -> bool {
        &&& self.scratch@.len() == len + HEADER_LEN
        &&& self.result matches Ok(n) ==> n <= self.scratch@.len()
    }
}

impl TunIo {
    /// The handle of the queue whose descriptor is `fd`.
    pub fn from(fd: i32) -> (io: TunIo)
        ensures
            io.0 == fd,
    {
        TunIo(fd)
    }

    /// The descriptor of the queue.
    pub fn as_raw_fd(&self) -> (fd: i32)
        ensures
            fd == self.0,
    {
        self.0
    }

    /// Receives one packet into `buf`, without the header that the device
    /// puts before it. A read shorter than the header counts as no payload.
    pub fn recv(&self, buf: &mut Vec<u8>, outcome: Option<&ReadOutcome>) -> (step: IoStep)
        requires
            old(buf).len() + HEADER_LEN <= usize::MAX,
            outcome matches Some(o) ==> o.fits(old(buf)@.len()),
        ensures
            step == recv_step(old(buf)@.len(), outcome),
            final(buf)@ == recv_buffer(old(buf)@, outcome),
            final(buf)@.len() == old(buf)@.len(),
            step matches IoStep::Done(Ok(count)) ==> count <= old(buf)@.len(),
    {
        match outcome {
            None => IoStep::Read(buf.len() + HEADER_LEN),
            Some(o) => match o.result {
                Err(e) => IoStep::Done(Err(e)),
                Ok(n) => {
                    let count: usize = unframe(o.scratch.as_slice(), n, buf);
                    assert(buf@ =~= buf@.take(count as int) + buf@.skip(count as int));
                    IoStep::Done(Ok(count))
                },
            },
        }
    }

    /// Sends one packet: the write carries the header and then `buf`, and
    /// the count reported excludes the header.
    pub fn send(&self, buf: &[u8], written: Option<Result<usize, Error>>) -> (step: IoStep)
        ensures
            match written {
                None => step matches IoStep::Write(bytes) && bytes@ == framed(buf@),
                Some(w) => step == IoStep::Done(sent(w)),
            },
    {
        match written {
            None => IoStep::Write(frame(buf)),
            Some(Ok(n)) => IoStep::Done(Ok(payload_count(n))),
            Some(Err(e)) => IoStep::Done(Err(e)),
        }
    }

    /// Sends the segments as one packet: the write carries the header and
    /// then every segment in order, and the count reported excludes the header.
    pub fn sendv(&self, bufs: &[&[u8]], written: Option<Result<usize, Error>>) -> (step: IoStep)
        ensures
            match written {
                None => step matches IoStep::Write(bytes) && bytes@ == framed(
                    concat(segment_views(bufs@)),
                ),
                Some(w) => step == IoStep::Done(sent(w)),
            },
    {
        match written {
            None => IoStep::Write(frame_vectored(bufs)),
            Some(Ok(n)) => IoStep::Done(Ok(payload_count(n))),
            Some(Err(e)) => IoStep::Done(Err(e)),
        }
    }
}

/// What one side sends, the other receives: where a read delivers whole
/// the bytes that `send` wrote for `payload`, `recv` reports the payload's
/// length and leaves in the caller's buffer the payload, nothing of the
/// header, and behind the payload what was there before.
pub proof fn lemma_send_then_recv(payload: Seq<u8>, before: Seq<u8>, outcome: &ReadOutcome)
    requires
        payload.len() <= before.len(),
        before.len() + HEADER_LEN <= usize::MAX,
        outcome.fits(before.len()),
        outcome.result == Ok::<usize, Error>(framed(payload).len() as usize),
        outcome.scratch@.take(framed(payload).len() as int) == framed(payload),
    ensures
        sent(Ok::<usize, Error>(framed(payload).len() as usize)) == Ok::<usize, Error>(
            payload.len() as usize,
        ),
        recv_step(before.len(), Some(outcome)) == IoStep::Done(Ok(payload.len() as usize)),
        recv_buffer(before, Some(outcome)).take(payload.len() as int) == payload,
        recv_buffer(before, Some(outcome)).skip(payload.len() as int) == before.skip(
            payload.len() as int,
        ),
{
    lemma_frame_round_trip(payload);
    let n = framed(payload).len() as int;
    assert(n == payload.len() + 4);
    let got = unframed(outcome.scratch@, n);
    assert(got =~= payload) by {
        assert forall|i: int| 0 <= i < payload.len() implies got[i] == payload[i] by {
            assert(outcome.scratch@.take(n)[i + 4] == framed(payload)[i + 4]);
        }
    }
    let after = recv_buffer(before, Some(outcome));
    assert(after == got + before.skip(payload.len() as int));
    assert(after.take(payload.len() as int) =~= payload);
    assert(after.skip(payload.len() as int) =~= before.skip(payload.len() as int));
}

} // verus!
