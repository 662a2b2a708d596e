//! Properties that relate several operations of a handle.
use vstd::prelude::*;
use crate::device::TunTap;
use crate::error::TunError;
use crate::frame::{flatten, overwrite, pi_header, PI_LEN};
use crate::request::{link_addr_union, lemma_link_addr_round_trip, IfReq, ETHER_ADDR_LEN};

verus! {

/// Writing `src` over a destination at least as long leaves exactly `src` in
/// its front.
pub proof fn lemma_overwrite_front(dst: Seq<u8>, src: Seq<u8>)
    requires
        src.len() <= dst.len(),
    ensures
        overwrite(dst, src).len() == dst.len(),
        overwrite(dst, src).subrange(0, src.len() as int) == src,
{
    assert(overwrite(dst, src).subrange(0, src.len() as int) =~= src);
}

/// A frame sent on a handle and read back on the same kind of handle, into a
/// buffer at least as long, arrives whole and unchanged: the byte count is
/// the frame's length and the buffer's front holds the frame.
pub proof fn lemma_send_recv_round_trip(h: TunTap, frame: Seq<u8>, buf: Seq<u8>)
    requires
        frame.len() <= buf.len(),
    ensures
        h.payload_of(h.wire_frame(frame)) == frame,
        overwrite(buf, h.payload_of(h.wire_frame(frame))).subrange(0, frame.len() as int)
            == frame,
{
    if h.adds_header() {
        let w = h.wire_frame(frame);
        assert(w.subrange(PI_LEN as int, w.len() as int) =~= frame);
        if w.len() <= PI_LEN {
            assert(frame.len() == 0);
            assert(frame =~= Seq::<u8>::empty());
        }
    }
    lemma_overwrite_front(buf, frame);
}

/// With the header kept by the handle, a payload goes out behind the fixed
/// four-byte packet-information header; without it, the payload goes out as
/// it is, from offset 0.
pub proof fn lemma_packet_info_framing(h: TunTap, payload: Seq<u8>)
    ensures
        h.adds_header() ==> h.wire_frame(payload) == pi_header(payload) + payload
            && pi_header(payload).len() == PI_LEN && h.wire_frame(payload).subrange(
            PI_LEN as int,
            h.wire_frame(payload).len() as int,
        ) == payload,
        !h.adds_header() ==> h.wire_frame(payload) == payload,
{
    if h.adds_header() {
        let w = h.wire_frame(payload);
        assert(w.subrange(PI_LEN as int, w.len() as int) =~= payload);
    }
}

/// Buffers that join to a frame go out exactly as that frame sent at once, and
/// come back as it; a frame read into buffers of enough room in all lies
/// across them in order.
pub proof fn lemma_vectored_round_trip(h: TunTap, bufs: Seq<Vec<u8>>, frame: Seq<u8>, dst: Seq<Vec<u8>>)
    requires
        flatten(bufs) == frame,
        frame.len() <= flatten(dst).len(),
    ensures
        h.wire_frame(flatten(bufs)) == h.wire_frame(frame),
        h.payload_of(h.wire_frame(flatten(bufs))) == frame,
        overwrite(flatten(dst), h.payload_of(h.wire_frame(frame))).subrange(0, frame.len() as int)
            == frame,
{
    lemma_send_recv_round_trip(h, frame, flatten(dst));
}

/// The address that `set_mac_address` places in its request is the one
/// `mac_address` reads back, on an open layer-2 handle, from a reply carrying
/// that union; a layer-3 handle refuses both, open or released.
pub proof fn lemma_mac_round_trip(h: TunTap, mac: Seq<u8>, reply: IfReq)
    requires
        reply.wf(),
        mac.len() == ETHER_ADDR_LEN,
        reply.ifru@ == link_addr_union(mac),
    ensures
        !h.spec_is_tun() && h.spec_is_open() ==> h.mac_outcome(reply) == Ok::<Seq<u8>, TunError>(
            mac,
        ),
        h.spec_is_tun() ==> h.mac_outcome(reply) == Err::<Seq<u8>, TunError>(
            TunError::Unsupported,
        ),
{
    lemma_link_addr_round_trip(reply, mac);
}

/// Releasing hands out the descriptor of an open handle; once released, a
/// handle of the same kind and descriptor yields `Closed` on every further
/// release, so the descriptor is handed out exactly once.
pub proof fn lemma_release_once(h: TunTap, after: TunTap)
    requires
        h.spec_is_open(),
        !after.spec_is_open(),
        after.spec_fd() == h.spec_fd(),
        after.spec_is_tun() == h.spec_is_tun(),
    ensures
        h.release_outcome() == Ok::<i32, TunError>(h.spec_fd()),
        after.release_outcome() == Err::<i32, TunError>(TunError::Closed),
{
}

} // verus!
