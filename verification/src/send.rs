use vstd::prelude::*;

use crate::records::ETHERNET_HEADER_SIZE;
use crate::recv::zero_vec;

verus! {

/// A batch of frames accepted into the write buffer: `num_packets` slots
/// of `packet_size` bytes each, laid out back to back from the buffer's
/// start and awaiting transmission slot by slot.
#[derive(Clone, Copy, Debug, PartialEq, Eq, Structural)]
pub struct BatchPlan {
    /// Number of frame slots in the batch.
    pub num_packets: usize,
    /// Size in bytes of each slot.
    pub packet_size: usize,
}

/// Leading bytes of each slot withheld from the device: on the loopback
/// pseudo-device the OS supplies its own framing, so the link-layer
/// header is stripped from every send.
pub open spec fn spec_strip(loopback: bool) -> int {
    if loopback {
        ETHERNET_HEADER_SIZE as int
    } else {
        0
    }
}

/// Owns the write buffer that outgoing frames are built in.
pub struct Sender {
    /// The buffer outgoing frames are assembled in before each is handed
    /// to the device write primitive.
    pub write_buffer: Vec<u8>,
    /// Whether the channel is bound to the loopback pseudo-device.
    pub loopback: bool,
    /// Maximum wait per write-readiness check, in microseconds; `None`
    /// blocks indefinitely.
    pub write_timeout_micros: Option<u64>,
}

impl Sender {
    /// The bytes of slot `i` that are handed to the device write
    /// primitive: the slot's contents with the loopback strip removed.
    pub open spec fn slot_written(self, packet_size: int, i: int) -> Seq<u8> {
        self.write_buffer@.subrange(
            i * packet_size + spec_strip(self.loopback),
            i * packet_size + packet_size,
        )
    }

    /// A batch of this shape fits the write buffer. A request that
    /// exactly fills the buffer is refused along with larger ones.
    pub open spec fn plan_fits(self, num_packets: int, packet_size: int) -> bool {
        num_packets * packet_size < self.write_buffer@.len()
    }

    /// Make a sender around a freshly allocated, zeroed write buffer of
    /// the configured size.
    pub fn new(write_buffer_size: usize, loopback: bool, write_timeout_micros: Option<u64>) -> (s:
        Sender)
        ensures
            s.write_buffer@.len() == write_buffer_size,
            forall|i: int| 0 <= i < write_buffer_size ==> s.write_buffer@[i] == 0,
            s.loopback == loopback,
            s.write_timeout_micros == write_timeout_micros,
    {
        Sender { write_buffer: zero_vec(write_buffer_size), loopback, write_timeout_micros }
    }

    /// Check a batch request against the write buffer's capacity: a
    /// request of `num_packets * packet_size` bytes or more than the
    /// buffer holds is a local capacity error (`None`), distinct from any
    /// device error, and causes no device I/O.
    pub fn prepare_batch(&self, num_packets: usize, packet_size: usize) -> (r: Option<BatchPlan>)
        ensures
            r is Some <==> self.plan_fits(num_packets as int, packet_size as int),
            r matches Some(p) ==> p.num_packets == num_packets && p.packet_size == packet_size,
    {
        let buflen = self.write_buffer.len();
        match num_packets.checked_mul(packet_size) {
            None => None,
            Some(requested) => {
                if requested >= buflen {
                    None
                } else {
                    Some(BatchPlan { num_packets, packet_size })
                }
            },
        }
    }

    /// Copy `num_packets` caller-built frames of `packet_size` bytes each
    /// into consecutive slots of the write buffer, ready to be handed to
    /// the device one slot at a time in order.
    ///
    /// Returns the capacity error (`None`) exactly when the request does
    /// not fit the buffer, leaving the buffer untouched; otherwise every
    /// slot holds its frame's bytes unmodified, and on a non-loopback
    /// channel the bytes later passed to the device write primitive are
    /// exactly each frame's bytes.
    #[verifier::loop_isolation(false)]
    pub fn build_and_send(
        &mut self,
        num_packets: usize,
        packet_size: usize,
        frames: &Vec<Vec<u8>>,
    ) -> (r: Option<BatchPlan>)
        requires
            frames@.len() == num_packets,
            forall|i: int| 0 <= i < num_packets ==> (#[trigger] frames@[i])@.len() == packet_size,
        ensures
            final(self).loopback == old(self).loopback,
            final(self).write_timeout_micros == old(self).write_timeout_micros,
            final(self).write_buffer@.len() == old(self).write_buffer@.len(),
            r is Some <==> old(self).plan_fits(num_packets as int, packet_size as int),
            r is None ==> final(self).write_buffer@ == old(self).write_buffer@,
            r matches Some(p) ==> {
                &&& p.num_packets == num_packets
                &&& p.packet_size == packet_size
                &&& forall|i: int|
                    0 <= i < num_packets ==> final(self).write_buffer@.subrange(
                        i * packet_size,
                        i * packet_size + packet_size,
                    ) == (#[trigger] frames@[i])@
                &&& forall|j: int|
                    num_packets * packet_size <= j < final(self).write_buffer@.len()
                        ==> final(self).write_buffer@[j] == old(self).write_buffer@[j]
            },
    {
        let plan = match self.prepare_batch(num_packets, packet_size) {
            None => {
                return None;
            },
            Some(p) => p,
        };
        let buflen = self.write_buffer.len();
        let mut i: usize = 0;
        while i < num_packets
            invariant
                i <= num_packets,
                self.loopback == old(self).loopback,
                self.write_timeout_micros == old(self).write_timeout_micros,
                self.write_buffer@.len() == old(self).write_buffer@.len(),
                forall|k: int|
                    0 <= k < i ==> self.write_buffer@.subrange(
                        k * packet_size,
                        k * packet_size + packet_size,
                    ) == (#[trigger] frames@[k])@,
                forall|j: int|
                    i * packet_size <= j < self.write_buffer@.len() ==> self.write_buffer@[j]
                        == old(self).write_buffer@[j],
            decreases num_packets - i,
        {
            proof {
                lemma_slot_in_bounds(
                    num_packets as int,
                    packet_size as int,
                    i as int,
                    self.write_buffer@.len() as int,
                );
            }
            let offset = i * packet_size;
            let ghost before = self.write_buffer@;
            copy_into(&mut self.write_buffer, offset, &frames[i]);
            proof {
                assert((i + 1) * packet_size == i * packet_size + packet_size) by (nonlinear_arith);
                assert forall|j: int|
                    (i + 1) * packet_size <= j < self.write_buffer@.len() implies self
                    .write_buffer@[j] == old(self).write_buffer@[j] by {
                    assert(self.write_buffer@[j] == before[j]);
                }
                assert forall|k: int|
                    0 <= k < i + 1 implies self.write_buffer@.subrange(
                    k * packet_size,
                    k * packet_size + packet_size,
                ) == (#[trigger] frames@[k])@ by {
                    lemma_slot_in_bounds(
                        num_packets as int,
                        packet_size as int,
                        k,
                        self.write_buffer@.len() as int,
                    );
                    if k < i {
                        assert(k * packet_size + packet_size <= i * packet_size)
                            by (nonlinear_arith)
                            requires
                                k + 1 <= i,
                                0 <= packet_size,
                        ;
                        assert(self.write_buffer@.subrange(
                            k * packet_size,
                            k * packet_size + packet_size,
                        ) =~= before.subrange(k * packet_size, k * packet_size + packet_size));
                    } else {
                        assert(self.write_buffer@.subrange(
                            k * packet_size,
                            k * packet_size + packet_size,
                        ) == frames@[k]@);
                    }
                }
            }
            i += 1;
        }
        Some(plan)
    }

    /// The byte range of the write buffer that slot `i` of an accepted
    /// batch hands to the device write primitive: the slot minus the
    /// loopback strip, as a (start, length) pair.
    pub fn write_range(&self, plan: &BatchPlan, i: usize) -> (r: (usize, usize))
        requires
            self.plan_fits(plan.num_packets as int, plan.packet_size as int),
            i < plan.num_packets,
            self.loopback ==> plan.packet_size >= ETHERNET_HEADER_SIZE,
        ensures
            r.0 == i * plan.packet_size + spec_strip(self.loopback),
            r.1 == plan.packet_size - spec_strip(self.loopback),
            r.0 + r.1 <= self.write_buffer@.len(),
            self.write_buffer@.subrange(r.0 as int, r.0 + r.1) == self.slot_written(
                plan.packet_size as int,
                i as int,
            ),
    {
        let buflen = self.write_buffer.len();
        proof {
            lemma_slot_in_bounds(
                plan.num_packets as int,
                plan.packet_size as int,
                i as int,
                self.write_buffer@.len() as int,
            );
        }
        let start = i * plan.packet_size;
        let strip = if self.loopback {
            ETHERNET_HEADER_SIZE
        } else {
            0
        };
        (start + strip, plan.packet_size - strip)
    }

    /// Send one caller-built frame: the batch of one slot of the frame's
    /// length, with the frame's bytes copied into it. No destination is
    /// named: routing is implicit in which device the channel is bound
    /// to.
    pub fn send_to(&mut self, frame: &Vec<u8>) -> (r: Option<BatchPlan>)
        ensures
            final(self).loopback == old(self).loopback,
            final(self).write_timeout_micros == old(self).write_timeout_micros,
            final(self).write_buffer@.len() == old(self).write_buffer@.len(),
            r is Some <==> old(self).plan_fits(1, frame@.len() as int),
            r is None ==> final(self).write_buffer@ == old(self).write_buffer@,
            r matches Some(p) ==> {
                &&& p.num_packets == 1
                &&& p.packet_size == frame@.len()
                &&& final(self).write_buffer@.subrange(0, frame@.len() as int) == frame@
                &&& forall|j: int|
                    frame@.len() <= j < final(self).write_buffer@.len()
                        ==> final(self).write_buffer@[j] == old(self).write_buffer@[j]
            },
    {
        let plan = match self.prepare_batch(1, frame.len()) {
            None => {
                return None;
            },
            Some(p) => p,
        };
        copy_into(&mut self.write_buffer, 0, frame);
        Some(plan)
    }
}

/// Each slot of an accepted batch lies within the write buffer.
proof fn lemma_slot_in_bounds(num_packets: int, packet_size: int, i: int, buflen: int)
    requires
        num_packets * packet_size < buflen,
        0 <= i < num_packets,
        0 <= packet_size,
    ensures
        i * packet_size + packet_size <= num_packets * packet_size,
        0 <= i * packet_size,
{
    assert(i * packet_size + packet_size <= num_packets * packet_size && 0 <= i * packet_size)
        by (nonlinear_arith)
        requires
            0 <= i,
            i + 1 <= num_packets,
            0 <= packet_size,
    ;
}

/// Copy `src` into `dst` starting at `offset`, leaving every byte outside
/// the copied range unchanged.
pub fn copy_into(dst: &mut Vec<u8>, offset: usize, src: &Vec<u8>)
    requires
        offset + src@.len() <= old(dst)@.len(),
    ensures
        final(dst)@.len() == old(dst)@.len(),
        final(dst)@.subrange(offset as int, offset + src@.len()) == src@,
        forall|j: int|
            0 <= j < old(dst)@.len() && !(offset <= j < offset + src@.len()) ==> final(dst)@[j]
                == old(dst)@[j],
{
    let n = src.len();
    let dl = dst.len();
    let mut j: usize = 0;
    while j < n
        invariant
            j <= n,
            n == src@.len(),
            offset + n <= dst@.len(),
            dl == dst@.len(),
            dst@.len() == old(dst)@.len(),
            forall|k: int| offset <= k < offset + j ==> dst@[k] == src@[k - offset],
            forall|k: int|
                0 <= k < dst@.len() && !(offset <= k < offset + j) ==> dst@[k] == old(dst)@[k],
        decreases n - j,
    {
        dst.set(offset + j, src[j]);
        j += 1;
    }
    proof {
        assert(dst@.subrange(offset as int, offset + src@.len()) =~= src@);
    }
}

} // verus!
