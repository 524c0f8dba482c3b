use vstd::prelude::*;

use crate::records::CAPLEN_OFFSET;
use crate::records::ETHERNET_HEADER_SIZE;
use crate::records::HDRLEN_OFFSET;
use crate::records::LOOPBACK_TAG_SIZE;
use crate::records::RECORD_HEADER_SIZE;
use crate::records::lemma_align_bounds;
use crate::records::spec_scan;
use crate::records::spec_u16_le;
use crate::records::spec_u32_le;
use crate::recv::Receiver;
use crate::recv::spec_base_offset;
use crate::recv::spec_tag;
use crate::send::BatchPlan;
use crate::send::Sender;
use crate::send::spec_strip;

verus! {

/// On a non-loopback channel nothing is stripped: the bytes a slot of an
/// accepted batch hands to the device write primitive are exactly the
/// frame the caller built into that slot, unmodified.
pub proof fn lemma_non_loopback_send_exact(s: Sender, plan: BatchPlan, frame: Seq<u8>, i: int)
    requires
        !s.loopback,
        s.plan_fits(plan.num_packets as int, plan.packet_size as int),
        0 <= i < plan.num_packets,
        frame.len() == plan.packet_size,
        s.write_buffer@.subrange(
            i * plan.packet_size,
            i * plan.packet_size + plan.packet_size,
        ) == frame,
    ensures
        s.slot_written(plan.packet_size as int, i) == frame,
{
    assert(spec_strip(s.loopback) == 0);
    assert(s.slot_written(plan.packet_size as int, i) =~= frame);
}

/// Loopback round trip: a loopback send strips the frame's link-layer
/// header and the OS feeds the sent bytes back as one capture record,
/// an address-family tag in front of them. If a loopback receiver's
/// read target holds exactly such a record, scanning yields exactly one
/// queued payload — the sent bytes, tag dropped — located where the
/// record header ends; the payload region of the receiver's buffer
/// holds the original frame's bytes after its header; and the delivered
/// frame's reported length (payload plus one synthesized header) equals
/// the original frame's length.
pub proof fn lemma_loopback_round_trip(r: Receiver, frame: Seq<u8>, nread: int)
    requires
        r.loopback,
        frame.len() >= ETHERNET_HEADER_SIZE,
        spec_u16_le(r.slice_view(), HDRLEN_OFFSET as int) >= RECORD_HEADER_SIZE,
        spec_u32_le(r.slice_view(), CAPLEN_OFFSET as int) == LOOPBACK_TAG_SIZE + frame.len()
            - ETHERNET_HEADER_SIZE,
        nread == spec_u16_le(r.slice_view(), HDRLEN_OFFSET as int) + spec_u32_le(
            r.slice_view(),
            CAPLEN_OFFSET as int,
        ),
        nread + spec_base_offset(true) <= r.read_buffer@.len(),
        r.slice_view().subrange(
            spec_u16_le(r.slice_view(), HDRLEN_OFFSET as int) + LOOPBACK_TAG_SIZE,
            nread,
        ) == frame.skip(ETHERNET_HEADER_SIZE as int),
    ensures
        ({
            let hdrlen = spec_u16_le(r.slice_view(), HDRLEN_OFFSET as int);
            let payload_len = frame.len() - ETHERNET_HEADER_SIZE;
            let start = hdrlen + LOOPBACK_TAG_SIZE;
            &&& spec_scan(r.slice_view(), nread, spec_tag(true), 0) == Some(
                seq![(start, payload_len as int)],
            )
            &&& payload_len + spec_base_offset(true) == frame.len()
            &&& r.read_buffer@.subrange(
                start + spec_base_offset(true),
                start + spec_base_offset(true) + payload_len,
            ) == frame.skip(ETHERNET_HEADER_SIZE as int)
        }),
{
    let b = r.slice_view();
    let hdrlen = spec_u16_le(b, HDRLEN_OFFSET as int);
    let caplen = spec_u32_le(b, CAPLEN_OFFSET as int);
    let payload_len = frame.len() - ETHERNET_HEADER_SIZE;
    let start = hdrlen + LOOPBACK_TAG_SIZE;
    lemma_align_bounds(hdrlen + caplen);
    assert(spec_scan(b, nread, spec_tag(true), nread) == Some(Seq::<(int, int)>::empty()));
    assert(seq![(start, payload_len as int)] + Seq::<(int, int)>::empty() =~= seq![
        (start, payload_len as int),
    ]);
    let base = spec_base_offset(true);
    assert(r.read_buffer@.subrange(start + base, start + base + payload_len) =~= b.subrange(
        start,
        nread,
    ));
}

} // verus!
