use vstd::prelude::*;

use std::collections::VecDeque;

use crate::records::CAPLEN_OFFSET;
use crate::records::ETHERNET_HEADER_SIZE;
use crate::records::HDRLEN_OFFSET;
use crate::records::LOOPBACK_TAG_SIZE;
use crate::records::RECORD_HEADER_SIZE;
use crate::records::read_u16_le;
use crate::records::read_u32_le;
use crate::records::spec_scan;
use crate::records::spec_u16_le;
use crate::records::spec_u32_le;
use crate::records::spec_align;

verus! {

/// One decoded capture record awaiting delivery: the payload's start and
/// length, in coordinates relative to the read target (the part of the
/// read buffer that the device fills).
#[derive(Clone, Copy, Debug, PartialEq, Eq, Structural)]
pub struct CaptureRecord {
    /// Payload start, relative to the read target.
    pub start: usize,
    /// Payload length in bytes, with the loopback tag already dropped.
    pub len: usize,
}

/// A frame ready to hand to the caller: the absolute byte range
/// `[start, start + len)` of the receiver's buffer. On loopback channels
/// the first header's worth of bytes is a zero-filled synthesized
/// link-layer header and the payload follows it.
#[derive(Clone, Copy, Debug, PartialEq, Eq, Structural)]
pub struct DeliveredFrame {
    /// First byte of the delivered frame within the read buffer.
    pub start: usize,
    /// Length of the delivered frame, synthesized header included.
    pub len: usize,
}

/// A malformed capture record: the device-reported lengths do not fit the
/// bytes the read actually returned, so scanning refuses to trust them.
#[derive(Clone, Copy, Debug, PartialEq, Eq, Structural)]
pub enum RecvError {
    MalformedRecord,
}

/// Bytes reserved in front of the read target so a link-layer header can
/// be synthesized before a loopback payload.
pub open spec fn spec_base_offset(loopback: bool) -> int {
    if loopback {
        ETHERNET_HEADER_SIZE as int
    } else {
        0
    }
}

/// Size of the address-family tag each loopback capture carries in place
/// of a link-layer header.
pub open spec fn spec_tag(loopback: bool) -> int {
    if loopback {
        LOOPBACK_TAG_SIZE as int
    } else {
        0
    }
}

/// Owns the read buffer and the FIFO queue of records decoded out of the
/// most recent device read.
pub struct Receiver {
    /// The capture buffer one device read fills. On loopback channels it
    /// is allocated one link-layer header longer than configured and the
    /// read target starts after that slack.
    pub read_buffer: Vec<u8>,
    /// Whether the channel is bound to the loopback pseudo-device.
    pub loopback: bool,
    /// Pending records of the current read, in capture order.
    pub queue: VecDeque<CaptureRecord>,
}

impl Receiver {
    /// The records pending delivery, as plain (start, length) pairs.
    pub open spec fn queue_records(self) -> Seq<(int, int)> {
        self.queue@.map_values(|r: CaptureRecord| (r.start as int, r.len as int))
    }

    /// The read target: the part of the buffer a device read fills.
    pub open spec fn slice_view(self) -> Seq<u8> {
        self.read_buffer@.skip(spec_base_offset(self.loopback))
    }

    /// Structural invariant: the buffer holds the loopback slack, every
    /// queued record lies within the read target, and the queue is in
    /// physical buffer order. Deliveries stay in bounds and never
    /// zero-fill a byte of a payload still queued.
    pub open spec fn wf(self) -> bool {
        &&& spec_base_offset(self.loopback) <= self.read_buffer@.len()
        &&& forall|i: int|
            0 <= i < self.queue@.len() ==> (#[trigger] self.queue@[i]).start + self.queue@[i].len
                + spec_base_offset(self.loopback) <= self.read_buffer@.len()
        &&& forall|i: int, j: int|
            0 <= i <= j < self.queue@.len() ==> (#[trigger] self.queue@[i]).start
                <= (#[trigger] self.queue@[j]).start
    }

    /// Make a receiver around a freshly allocated, zeroed read buffer of
    /// the configured size, enlarged by one link-layer header when the
    /// channel is a loopback one.
    pub fn new(read_buffer_size: usize, loopback: bool) -> (r: Receiver)
        requires
            read_buffer_size + ETHERNET_HEADER_SIZE <= usize::MAX,
        ensures
            r.wf(),
            r.loopback == loopback,
            r.queue@.len() == 0,
            r.read_buffer@.len() == read_buffer_size + spec_base_offset(loopback),
            forall|i: int| 0 <= i < r.read_buffer@.len() ==> r.read_buffer@[i] == 0,
    {
        let allocated = if loopback {
            read_buffer_size + ETHERNET_HEADER_SIZE
        } else {
            read_buffer_size
        };
        Receiver { read_buffer: zero_vec(allocated), loopback, queue: VecDeque::new() }
    }

    /// Where the read target begins within the buffer.
    pub fn base_offset(&self) -> (r: usize)
        ensures
            r == spec_base_offset(self.loopback),
    {
        if self.loopback {
            ETHERNET_HEADER_SIZE
        } else {
            0
        }
    }

    /// How many bytes one device read may deliver into the read target.
    pub fn read_capacity(&self) -> (r: usize)
        requires
            self.wf(),
        ensures
            r == self.read_buffer@.len() - spec_base_offset(self.loopback),
    {
        self.read_buffer.len() - self.base_offset()
    }

    /// Number of records pending delivery.
    pub fn pending(&self) -> (r: usize)
        ensures
            r == self.queue@.len(),
    {
        self.queue.len()
    }

    /// Begin an iteration session: start from an empty record queue sized
    /// with a capacity hint of one minimal frame slot per 64 buffer bytes.
    pub fn begin_iteration(&mut self)
        requires
            old(self).wf(),
        ensures
            final(self).wf(),
            final(self).read_buffer == old(self).read_buffer,
            final(self).loopback == old(self).loopback,
            final(self).queue@.len() == 0,
    {
        let hint = self.read_buffer.len() / 64;
        self.queue = VecDeque::with_capacity(hint);
    }

    /// Decode the `nread` bytes one device read put into the read target
    /// as back-to-back capture records and queue them in capture order.
    ///
    /// Succeeds exactly when the byte range scans cleanly; a record whose
    /// device-reported lengths run past `nread`, whose header length is
    /// shorter than the fixed header layout, or whose capture is shorter
    /// than the loopback tag leaves an empty queue and an error instead.
    #[verifier::loop_isolation(false)]
    #[verifier::rlimit(30)]
    pub fn process_read(&mut self, nread: usize) -> (r: Result<(), RecvError>)
        requires
            old(self).wf(),
            old(self).queue@.len() == 0,
            nread + spec_base_offset(old(self).loopback) <= old(self).read_buffer@.len(),
        ensures
            final(self).wf(),
            final(self).read_buffer == old(self).read_buffer,
            final(self).loopback == old(self).loopback,
            r is Ok <==> spec_scan(
                old(self).slice_view(),
                nread as int,
                spec_tag(old(self).loopback),
                0,
            ) is Some,
            r is Ok ==> Some(final(self).queue_records()) == spec_scan(
                old(self).slice_view(),
                nread as int,
                spec_tag(old(self).loopback),
                0,
            ),
            r is Err ==> final(self).queue@.len() == 0,
    {
        let ghost b = old(self).slice_view();
        let ghost tagg = spec_tag(old(self).loopback);
        let buflen = self.read_buffer.len();
        let base = self.base_offset();
        let tag: u32 = if self.loopback {
            LOOPBACK_TAG_SIZE as u32
        } else {
            0
        };
        let mut cur: usize = 0;
        let ghost mut emitted: Seq<(int, int)> = Seq::empty();
        proof {
            assert(self.queue_records() =~= Seq::<(int, int)>::empty());
            assert(emitted + spec_scan(b, nread as int, tagg, 0).unwrap() =~= spec_scan(
                b,
                nread as int,
                tagg,
                0,
            ).unwrap()) by {
                if spec_scan(b, nread as int, tagg, 0) is Some {
                }
            }
        }
        while cur < nread
            invariant
                cur <= nread,
                self.read_buffer == old(self).read_buffer,
                self.loopback == old(self).loopback,
                self.queue_records() == emitted,
                forall|i: int|
                    0 <= i < emitted.len() ==> 0 <= (#[trigger] emitted[i]).0 && emitted[i].0
                        + emitted[i].1 <= cur as int && 0 <= emitted[i].1,
                forall|i: int, j: int|
                    0 <= i <= j < emitted.len() ==> (#[trigger] emitted[i]).0
                        <= (#[trigger] emitted[j]).0,
                scan_join(emitted, spec_scan(b, nread as int, tagg, cur as int)) == spec_scan(
                    b,
                    nread as int,
                    tagg,
                    0,
                ),
            decreases nread - cur,
        {
            let ghost cur0 = cur as int;
            let avail = nread - cur;
            if avail < RECORD_HEADER_SIZE {
                self.queue = VecDeque::new();
                return Err(RecvError::MalformedRecord);
            }
            let caplen = read_u32_le(&self.read_buffer, base + cur + CAPLEN_OFFSET);
            let hdrlen = read_u16_le(&self.read_buffer, base + cur + HDRLEN_OFFSET);
            proof {
                assert(caplen == spec_u32_le(b, cur0 + CAPLEN_OFFSET)) by {
                    assert(forall|k: int|
                        0 <= k < b.len() ==> b[k] == old(self).read_buffer@[k + spec_base_offset(
                            old(self).loopback,
                        )]);
                }
                assert(hdrlen == spec_u16_le(b, cur0 + HDRLEN_OFFSET));
            }
            if (hdrlen as usize) < RECORD_HEADER_SIZE || caplen < tag || hdrlen as u64
                + caplen as u64 > avail as u64 {
                self.queue = VecDeque::new();
                return Err(RecvError::MalformedRecord);
            }
            let start: usize = cur + hdrlen as usize + tag as usize;
            let len: usize = (caplen - tag) as usize;
            self.queue.push_back(CaptureRecord { start, len });
            let rec_len: u64 = hdrlen as u64 + caplen as u64;
            let aligned: u64 = ((rec_len + 3) / 4) * 4;
            proof {
                crate::records::lemma_align_bounds(rec_len as int);
            }
            if aligned >= (nread - cur) as u64 {
                cur = nread;
            } else {
                cur = cur + aligned as usize;
            }
            proof {
                let prev = emitted;
                let rec = (start as int, len as int);
                emitted = emitted + seq![rec];
                assert(self.queue_records() =~= emitted);
                assert(aligned == spec_align(hdrlen + caplen));
                let rest = spec_scan(b, nread as int, tagg, cur as int);
                assert(spec_scan(b, nread as int, tagg, cur0) == scan_join(seq![rec], rest));
                if rest is Some {
                    assert((prev + seq![rec]) + rest.unwrap() =~= prev + (seq![rec]
                        + rest.unwrap()));
                }
                assert(scan_join(emitted, rest) == spec_scan(b, nread as int, tagg, 0));
            }
        }
        proof {
            assert(spec_scan(b, nread as int, tagg, nread as int) == Some(
                Seq::<(int, int)>::empty(),
            ));
            assert(emitted + Seq::<(int, int)>::empty() =~= emitted);
            assert forall|i: int| 0 <= i < self.queue@.len() implies (
            #[trigger] self.queue@[i]).start + self.queue@[i].len + spec_base_offset(
                self.loopback,
            ) <= self.read_buffer@.len() by {
                assert(self.queue_records()[i] == emitted[i]);
            }
            assert forall|i: int, j: int|
                0 <= i <= j < self.queue@.len() implies (#[trigger] self.queue@[i]).start <= (
            #[trigger] self.queue@[j]).start by {
                assert(self.queue_records()[i] == emitted[i]);
                assert(self.queue_records()[j] == emitted[j]);
            }
        }
        Ok(())
    }

    /// Pop the oldest pending record and deliver it as a frame range of
    /// the read buffer. On loopback channels the delivered range begins
    /// one header size before the payload; that prefix is zero-filled
    /// here as the synthesized link-layer header, and no byte of any
    /// still-queued payload is touched.
    #[verifier::loop_isolation(false)]
    pub fn next_frame(&mut self) -> (r: Option<DeliveredFrame>)
        requires
            old(self).wf(),
        ensures
            final(self).wf(),
            final(self).loopback == old(self).loopback,
            final(self).read_buffer@.len() == old(self).read_buffer@.len(),
            r is Some <==> old(self).queue@.len() > 0,
            r is None ==> final(self).read_buffer@ == old(self).read_buffer@
                && final(self).queue@ == old(self).queue@,
            r matches Some(f) ==> {
                let rec = old(self).queue@[0];
                let base = spec_base_offset(old(self).loopback);
                &&& final(self).queue@ == old(self).queue@.skip(1)
                &&& f.start == rec.start
                &&& f.len == rec.len + base
                &&& f.start + f.len <= final(self).read_buffer@.len()
                &&& forall|j: int|
                    f.start <= j < f.start + base ==> final(self).read_buffer@[j] == 0
                &&& forall|j: int|
                    0 <= j < final(self).read_buffer@.len() && !(f.start <= j < f.start + base)
                        ==> final(self).read_buffer@[j] == old(self).read_buffer@[j]
            },
    {
        let buflen = self.read_buffer.len();
        let base = self.base_offset();
        match self.queue.pop_front() {
            None => None,
            Some(rec) => {
                proof {
                    assert(old(self).queue@[0].start + old(self).queue@[0].len + spec_base_offset(
                        old(self).loopback,
                    ) <= old(self).read_buffer@.len());
                    assert(self.queue@ =~= old(self).queue@.skip(1));
                }
                let start = rec.start;
                let mut j: usize = 0;
                while j < base
                    invariant
                        j <= base,
                        base == spec_base_offset(old(self).loopback),
                        start == old(self).queue@[0].start,
                        start + old(self).queue@[0].len + base <= self.read_buffer@.len(),
                        self.read_buffer@.len() == old(self).read_buffer@.len(),
                        self.loopback == old(self).loopback,
                        self.queue@ == old(self).queue@.skip(1),
                        forall|k: int|
                            start <= k < start + j ==> self.read_buffer@[k] == 0,
                        forall|k: int|
                            0 <= k < self.read_buffer@.len() && !(start <= k < start + j)
                                ==> self.read_buffer@[k] == old(self).read_buffer@[k],
                    decreases base - j,
                {
                    self.read_buffer.set(start + j, 0);
                    j += 1;
                }
                Some(DeliveredFrame { start, len: rec.len + base })
            },
        }
    }
}

/// Join an already-emitted record prefix with the outcome of scanning the
/// rest of the read bytes.
pub open spec fn scan_join(e: Seq<(int, int)>, rest: Option<Seq<(int, int)>>) -> Option<
    Seq<(int, int)>,
> {
    match rest {
        None => None,
        Some(r) => Some(e + r),
    }
}

/// A zero-filled byte vector of the requested length.
pub fn zero_vec(n: usize) -> (v: Vec<u8>)
    ensures
        v@.len() == n,
        forall|i: int| 0 <= i < n ==> v@[i] == 0,
{
    let mut v: Vec<u8> = Vec::new();
    while v.len() < n
        invariant
            v@.len() <= n,
            forall|i: int| 0 <= i < v@.len() ==> v@[i] == 0,
        decreases n - v@.len(),
    {
        v.push(0);
    }
    v
}

} // verus!
