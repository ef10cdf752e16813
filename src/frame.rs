//! Frame assembly: turns clock/data line samples into 11-bit PS/2 frames.
//!
//! A bit is taken on each falling clock edge. Frame position 0 is the start
//! bit, positions 1 to 8 carry the scan code least significant bit first,
//! position 9 is the parity bit and position 10 the stop bit.
use vstd::prelude::*;

verus! {

/// Number of bits in one frame.
pub const FRAME_BITS: u8 = 11;

/// Outcome of one line sample.
#[derive(Clone, Copy, Debug, PartialEq, Eq, Structural)]
pub enum FrameResult {
    Incomplete,
    Complete { code: u8, parity_ok: bool },
}

/// Abstract state of the assembler: the bits of the current frame taken so
/// far, oldest first, and the clock level seen by the previous sample.
pub ghost struct FrameView {
    pub bits: Seq<bool>,
    pub last_clock: bool,
}

/// Bit `k` of a byte.
pub open spec fn bit_of(x: u8, k: int) -> bool {
    (x >> (k as u8)) & 1u8 == 1u8
}

/// The eight bits of a byte, least significant first.
pub open spec fn byte_bits(x: u8) -> Seq<bool> {
    Seq::new(8, |k: int| bit_of(x, k))
}

/// How many of the bits are set.
pub open spec fn ones(s: Seq<bool>) -> nat
    decreases s.len(),
{
    if s.len() == 0 {
        0
    } else {
        ones(s.drop_last()) + if s.last() { 1nat } else { 0nat }
    }
}

/// The eight data bits of a frame.
pub open spec fn data_bits(frame: Seq<bool>) -> Seq<bool> {
    frame.subrange(1, 9)
}

/// The parity check of a frame: whether the number of set data bits is odd
/// exactly when the parity bit is set.
pub open spec fn parity_holds(frame: Seq<bool>) -> bool {
    (ones(data_bits(frame)) % 2 == 1) == frame[9]
}

/// Whether `r` reports the complete frame `frame`: the code holds the data
/// bits, least significant first, and the parity flag is the parity check.
pub open spec fn reports(frame: Seq<bool>, r: FrameResult) -> bool {
    match r {
        FrameResult::Complete { code, parity_ok } => byte_bits(code) == data_bits(frame)
            && parity_ok == parity_holds(frame),
        FrameResult::Incomplete => false,
    }
}

pub open spec fn is_falling(previous: bool, now: bool) -> bool {
    previous && !now
}

/// Whether a sample completes the current frame.
pub open spec fn completes(s: FrameView, clock: bool) -> bool {
    is_falling(s.last_clock, clock) && s.bits.len() + 1 == FRAME_BITS
}

/// The state after one sample.
pub open spec fn after(s: FrameView, clock: bool, data: bool) -> FrameView {
    FrameView {
        bits: if !is_falling(s.last_clock, clock) {
            s.bits
        } else if completes(s, clock) {
            Seq::empty()
        } else {
            s.bits.push(data)
        },
        last_clock: clock,
    }
}

/// The state after one clock pulse carrying `data`: a sample with the clock
/// high, then one with the clock low.
pub open spec fn after_pulse(s: FrameView, data: bool) -> FrameView {
    after(after(s, true, data), false, data)
}

/// The state after one clock pulse per bit of `bits`.
pub open spec fn after_pulses(s: FrameView, bits: Seq<bool>) -> FrameView
    decreases bits.len(),
{
    if bits.len() == 0 {
        s
    } else {
        after_pulse(after_pulses(s, bits.drop_last()), bits.last())
    }
}

/// Whether one clock pulse completes a frame, on its rising or its falling
/// sample.
pub open spec fn pulse_completes(s: FrameView, data: bool) -> bool {
    completes(s, true) || completes(after(s, true, data), false)
}

/// Pulses that do not fill a frame only append their bits: no pulse
/// completes a frame, and the clock is last seen low.
pub proof fn lemma_pulses_append(s: FrameView, bits: Seq<bool>)
    requires
        s.bits.len() + bits.len() < FRAME_BITS,
    ensures
        after_pulses(s, bits).bits == s.bits + bits,
        bits.len() > 0 ==> !after_pulses(s, bits).last_clock,
        forall|i: int|
            0 <= i < bits.len() ==> !pulse_completes(
                #[trigger] after_pulses(s, bits.take(i)),
                bits[i],
            ),
    decreases bits.len(),
{
    if bits.len() == 0 {
        assert(s.bits + bits =~= s.bits);
    } else {
        let init = bits.drop_last();
        lemma_pulses_append(s, init);
        assert(s.bits + bits =~= (s.bits + init).push(bits.last()));
        assert forall|i: int| 0 <= i < bits.len() implies !pulse_completes(
            #[trigger] after_pulses(s, bits.take(i)),
            bits[i],
        ) by {
            if i < init.len() {
                assert(init.take(i) =~= bits.take(i));
                assert(init[i] == bits[i]);
            } else {
                assert(bits.take(i) =~= init);
            }
        }
    }
}

/// Fewer than eleven pulses from the start of a frame complete nothing:
/// every sample is incomplete, and the bits carried are all that is kept.
pub proof fn lemma_short_run_incomplete(s: FrameView, bits: Seq<bool>)
    requires
        s.bits.len() == 0,
        bits.len() < FRAME_BITS,
    ensures
        forall|i: int|
            0 <= i < bits.len() ==> !pulse_completes(
                #[trigger] after_pulses(s, bits.take(i)),
                bits[i],
            ),
        after_pulses(s, bits).bits == bits,
{
    lemma_pulses_append(s, bits);
    assert(s.bits + bits =~= bits);
}

/// Eleven pulses from the start of a frame complete it exactly once, on the
/// falling edge of the last pulse, and the frame reported is the eleven bits
/// carried; afterwards the assembler is at the start of the next frame.
pub proof fn lemma_eleven_pulses_complete(s: FrameView, bits: Seq<bool>)
    requires
        s.bits.len() == 0,
        bits.len() == FRAME_BITS,
    ensures
        forall|i: int|
            0 <= i < FRAME_BITS - 1 ==> !pulse_completes(
                #[trigger] after_pulses(s, bits.take(i)),
                bits[i],
            ),
        !completes(after_pulses(s, bits.take(10)), true),
        completes(after(after_pulses(s, bits.take(10)), true, bits[10]), false),
        after(after_pulses(s, bits.take(10)), true, bits[10]).bits.push(bits[10]) == bits,
        after_pulses(s, bits).bits.len() == 0,
{
    let first = bits.take(10);
    lemma_pulses_append(s, first);
    assert(s.bits + first =~= first);
    assert forall|i: int| 0 <= i < FRAME_BITS - 1 implies !pulse_completes(
        #[trigger] after_pulses(s, bits.take(i)),
        bits[i],
    ) by {
        assert(first.take(i) =~= bits.take(i));
        assert(first[i] == bits[i]);
    }
    assert(first.push(bits[10]) =~= bits);
    assert(bits.drop_last() =~= first);
}

/// Collects the bits of one frame at a time.
pub struct FrameAssembler {
    /// Every bit of the current frame, the oldest in the highest position.
    packet: u16,
    /// The data bits taken so far.
    code: u8,
    parity: bool,
    bits_received: u8,
    last_clock: bool,
}

impl View for FrameAssembler {
    type V = FrameView;

    closed spec fn view(&self) -> FrameView {
        FrameView {
            bits: Seq::new(
                self.bits_received as nat,
                |i: int| (self.packet >> ((self.bits_received - 1 - i) as u16)) & 1u16 == 1u16,
            ),
            last_clock: self.last_clock,
        }
    }
}

proof fn lemma_shift_in(p: u16, d: u16, j: u16)
    requires
        d <= 1,
        j < 15,
    ensures
        (((p << 1u16) | d) >> (j + 1) as u16) & 1u16 == (p >> j) & 1u16,
        (((p << 1u16) | d) >> 0u16) & 1u16 == d,
{
    assert((((p << 1u16) | d) >> (j + 1) as u16) & 1u16 == (p >> j) & 1u16) by (bit_vector)
        requires
            d <= 1,
            j < 15,
    ;
    assert((((p << 1u16) | d) >> 0u16) & 1u16 == d) by (bit_vector)
        requires
            d <= 1,
    ;
}

proof fn lemma_set_bit(c: u8, d: u8, j: u8, k: u8)
    requires
        d <= 1,
        j < 8,
        k < 8,
    ensures
        k != j ==> ((c | (d << j)) >> k) & 1u8 == (c >> k) & 1u8,
        (c >> j) & 1u8 != 1u8 ==> ((c | (d << j)) >> j) & 1u8 == d,
{
    assert(k != j ==> ((c | (d << j)) >> k) & 1u8 == (c >> k) & 1u8) by (bit_vector)
        requires
            d <= 1,
            j < 8,
            k < 8,
    ;
    assert((c >> j) & 1u8 != 1u8 ==> ((c | (d << j)) >> j) & 1u8 == d) by (bit_vector)
        requires
            d <= 1,
            j < 8,
    ;
}

proof fn lemma_zero_bits(k: u8)
    requires
        k < 8,
    ensures
        (0u8 >> k) & 1u8 == 0u8,
{
    assert((0u8 >> k) & 1u8 == 0u8) by (bit_vector);
}

/// Counts the set bits of a byte.
fn count_ones(x: u8) -> (n: u8)
    ensures
        n == ones(byte_bits(x)),
{
    let mut n: u8 = 0;
    let mut k: u8 = 0;
    while k < 8
        invariant
            k <= 8,
            n <= k,
            n == ones(byte_bits(x).take(k as int)),
        decreases 8 - k,
    {
        proof {
            assert(byte_bits(x).take(k + 1).drop_last() =~= byte_bits(x).take(k as int));
        }
        if (x >> k) & 1u8 == 1u8 {
            n = n + 1;
        }
        k = k + 1;
    }
    assert(byte_bits(x).take(8) =~= byte_bits(x));
    n
}

impl FrameAssembler {
    /// Internal consistency: the code and parity fields agree with the bits
    /// taken so far, and a frame in progress is never full.
    pub closed spec fn wf(&self) -> bool {
        &&& self.bits_received < FRAME_BITS
        &&& forall|k: int|
            0 <= k < 8 ==> #[trigger] bit_of(self.code, k) == (k + 1 < self.bits_received
                && self@.bits[k + 1])
        &&& self.parity == (self.bits_received > 9 && self@.bits[9])
    }

    /// An assembler at the start of a frame, with the clock last seen low.
    pub fn new() -> (r: Self)
        ensures
            r.wf(),
            r@.bits.len() == 0,
            !r@.last_clock,
    {
        let r = FrameAssembler { packet: 0, code: 0, parity: false, bits_received: 0, last_clock: false };
        proof {
            assert forall|k: int| 0 <= k < 8 implies #[trigger] bit_of(r.code, k) == (k + 1
                < r.bits_received && r@.bits[k + 1]) by {
                lemma_zero_bits(k as u8);
            }
        }
        r
    }

    /// Drops the frame in progress; the last clock level is kept.
    pub fn reset(&mut self)
        ensures
            final(self).wf(),
            final(self)@.bits.len() == 0,
            final(self)@.last_clock == old(self)@.last_clock,
    {
        self.packet = 0;
        self.code = 0;
        self.parity = false;
        self.bits_received = 0;
        proof {
            assert forall|k: int| 0 <= k < 8 implies #[trigger] bit_of(self.code, k) == (k + 1
                < self.bits_received && self@.bits[k + 1]) by {
                lemma_zero_bits(k as u8);
            }
        }
    }

    /// Takes one sample of the clock and data lines. On a falling clock edge
    /// the data level is the next bit of the frame; the eleventh bit
    /// completes the frame, which is reported and dropped.
    pub fn sample(&mut self, clock: bool, data: bool) -> (r: FrameResult)
        requires
            old(self).wf(),
        ensures
            final(self).wf(),
            final(self)@ == after(old(self)@, clock, data),
            completes(old(self)@, clock) ==> reports(old(self)@.bits.push(data), r),
            !completes(old(self)@, clock) ==> r == FrameResult::Incomplete,
    {
        let ghost pre = self@;
        let ghost old_code = self.code;
        let mut r = FrameResult::Incomplete;
        if !clock && self.last_clock {
            let dat: u8 = if data { 1 } else { 0 };
            let pos = self.bits_received;
            self.packet = (self.packet << 1u16) | (dat as u16);
            if pos >= 1 && pos <= 8 {
                self.code = self.code | (dat << (pos - 1));
            }
            if pos == 9 {
                self.parity = data;
            }
            self.bits_received = pos + 1;
            let ghost frame = pre.bits.push(data);
            proof {
                assert forall|i: int| 0 <= i < frame.len() implies #[trigger] self@.bits[i]
                    == frame[i] by {
                    if i < pos {
                        lemma_shift_in(old(self).packet, dat as u16, (pos - 1 - i) as u16);
                    } else {
                        lemma_shift_in(old(self).packet, dat as u16, 0u16);
                    }
                }
                assert(self@.bits =~= frame);
                assert forall|k: int| 0 <= k < 8 implies #[trigger] bit_of(self.code, k) == (k
                    + 1 < self.bits_received && frame[k + 1]) by {
                    assert(bit_of(old_code, k) == (k + 1 < pos && pre.bits[k + 1]));
                    if k + 1 < pos {
                        assert(frame[k + 1] == pre.bits[k + 1]);
                    }
                    if 1 <= pos <= 8 {
                        lemma_set_bit(old_code, dat, (pos - 1) as u8, k as u8);
                        if k + 1 == pos {
                            assert(frame[k + 1] == data);
                        }
                    }
                }
            }
            if self.bits_received == FRAME_BITS {
                let n = count_ones(self.code);
                proof {
                    assert(byte_bits(self.code) =~= data_bits(frame));
                }
                r = FrameResult::Complete { code: self.code, parity_ok: (n % 2 == 1) == self.parity };
                self.packet = 0;
                self.code = 0;
                self.parity = false;
                self.bits_received = 0;
                proof {
                    assert forall|k: int| 0 <= k < 8 implies #[trigger] bit_of(self.code, k) == (k
                        + 1 < self.bits_received && self@.bits[k + 1]) by {
                        lemma_zero_bits(k as u8);
                    }
                    assert(self@.bits =~= Seq::<bool>::empty());
                }
            }
        }
        self.last_clock = clock;
        r
    }
}

} // verus!
