//! Packet framing: the device puts a four-byte address-family header before
//! every packet, which callers of the library never see.

use vstd::prelude::*;

verus! {

/// Length in bytes of the address-family header.
pub const HEADER_LEN: usize = 4;

/// The header of an IPv4 packet: address family 2 in network byte order.
pub open spec fn ipv4_header() -> Seq<u8> {
    seq![0u8, 0u8, 0u8, 2u8]
}

/// A payload as it travels to the device.
pub open spec fn framed(payload: Seq<u8>) -> Seq<u8> {
    ipv4_header() + payload
}

/// The segments of a vectored send, one after another.
pub open spec fn concat(segments: Seq<Seq<u8>>) -> Seq<u8>
    decreases segments.len(),
{
    if segments.len() == 0 {
        Seq::empty()
    } else {
        concat(segments.drop_last()) + segments.last()
    }
}

/// The views of the segments of a vectored send.
pub open spec fn segment_views(bufs: Seq<&[u8]>) -> Seq<Seq<u8>> {
    Seq::new(bufs.len(), |i: int| bufs[i]@)
}

/// Payload bytes among `n` bytes that crossed the device boundary: all but the
/// header, and none if the header itself is incomplete.
pub open spec fn payload_len(n: int) -> int {
    if n <= 4 {
        0
    } else {
        n - 4
    }
}

/// The payload carried by the first `n` bytes of a device read.
pub open spec fn unframed(scratch: Seq<u8>, n: int) -> Seq<u8> {
    if n < 4 {
        Seq::empty()
    } else {
        scratch.subrange(4, n)
    }
}

/// Builds the buffer handed to the device for one payload.
pub fn frame(payload: &[u8]) -> (out: Vec<u8>)
    ensures
        out@ == framed(payload@),
{
    let mut out: Vec<u8> = Vec::new();
    out.push(0u8);
    out.push(0u8);
    out.push(0u8);
    out.push(2u8);
    let mut i: usize = 0;
    while i < payload.len()
        invariant
            i <= payload.len(),
            out@ == ipv4_header() + payload@.take(i as int),
        decreases payload.len() - i,
    {
        out.push(payload[i]);
        i += 1;
    }
    assert(payload@.take(i as int) == payload@);
    out
}

/// Builds the single buffer handed to the device for a vectored send: the
/// header, then every segment in order.
pub fn frame_vectored(bufs: &[&[u8]]) -> (out: Vec<u8>)
    ensures
        out@ == framed(concat(segment_views(bufs@))),
{
    let mut out: Vec<u8> = Vec::new();
    out.push(0u8);
    out.push(0u8);
    out.push(0u8);
    out.push(2u8);
    let ghost views = segment_views(bufs@);
    let mut k: usize = 0;
    assert(concat(views.take(0)) == Seq::<u8>::empty());
    while k < bufs.len()
        invariant
            k <= bufs.len(),
            views == segment_views(bufs@),
            out@ == ipv4_header() + concat(views.take(k as int)),
        decreases bufs.len() - k,
    {
        let seg: &[u8] = bufs[k];
        let ghost before = out@;
        let mut i: usize = 0;
        while i < seg.len()
            invariant
                i <= seg.len(),
                out@ == before + seg@.take(i as int),
            decreases seg.len() - i,
        {
            out.push(seg[i]);
            i += 1;
        }
        proof {
            assert(seg@.take(i as int) == seg@);
            assert(views.take(k + 1).drop_last() == views.take(k as int));
            assert(views.take(k + 1).last() == seg@);
            assert(out@ == ipv4_header() + concat(views.take(k + 1)));
        }
        k += 1;
    }
    assert(views.take(k as int) == views);
    out
}

/// Size of the scratch buffer for a read that may fill `requested` payload bytes.
pub fn scratch_len(requested: usize) -> (len: usize)
    requires
        requested + HEADER_LEN <= usize::MAX,
    ensures
        len == requested + HEADER_LEN,
{
    requested + HEADER_LEN
}

/// Number of payload bytes among `n` bytes read from or written to the device.
pub fn payload_count(n: usize) -> (count: usize)
    ensures
        count == payload_len(n as int),
{
    if n <= HEADER_LEN {
        0
    } else {
        n - HEADER_LEN
    }
}

/// Copies the payload of a device read of `n` bytes from `scratch` to the front
/// of `buf` and returns its length. A read shorter than the header carries no
/// payload and leaves `buf` as it was.
pub fn unframe(scratch: &[u8], n: usize, buf: &mut Vec<u8>) -> (count: usize)
    requires
        n <= scratch.len(),
        scratch.len() == old(buf).len() + HEADER_LEN,
    ensures
        count == payload_len(n as int),
        count <= old(buf).len(),
        final(buf)@.len() == old(buf)@.len(),
        final(buf)@.take(count as int) == unframed(scratch@, n as int),
        final(buf)@.skip(count as int) == old(buf)@.skip(count as int),
{
    if n < HEADER_LEN {
        assert(buf@.take(0) == Seq::<u8>::empty());
        return 0;
    }
    let count: usize = n - HEADER_LEN;
    let mut i: usize = 0;
    while i < count
        invariant
            i <= count,
            count == n - 4,
            n <= scratch.len(),
            scratch.len() == old(buf).len() + 4,
            buf@.len() == old(buf)@.len(),
            buf@.take(i as int) == scratch@.subrange(4, 4 + i),
            buf@.skip(i as int) == old(buf)@.skip(i as int),
        decreases count - i,
    {
        let ghost prev = buf@;
        buf[i] = scratch[i + HEADER_LEN];
        proof {
            assert(buf@ == prev.update(i as int, scratch@[i + 4]));
            assert(buf@.take(i + 1) == prev.take(i as int).push(scratch@[i + 4]));
            assert(scratch@.subrange(4, 4 + i + 1) == scratch@.subrange(4, 4 + i).push(
                scratch@[i + 4],
            ));
            assert(buf@.skip(i + 1) == prev.skip(i as int).skip(1));
            assert(old(buf)@.skip(i + 1) == old(buf)@.skip(i as int).skip(1));
        }
        i += 1;
    }
    count
}

/// Header bytes never reach the caller: what `unframe` yields from a framed
/// payload that the device delivered whole is the payload itself.
pub proof fn lemma_frame_round_trip(payload: Seq<u8>)
    ensures
        unframed(framed(payload), framed(payload).len() as int) == payload,
        payload_len(framed(payload).len() as int) == payload.len(),
{
    assert(framed(payload).subrange(4, framed(payload).len() as int) == payload);
}

/// A read never reports more payload than fits the caller's buffer.
pub proof fn lemma_payload_fits(n: int, capacity: int)
    requires
        0 <= n <= capacity + HEADER_LEN,
        0 <= capacity,
    ensures
        0 <= payload_len(n) <= capacity,
{
}

} // verus!
