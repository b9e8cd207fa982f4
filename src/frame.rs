//! The inbound event frame: sixteen bytes that the logic device sends for
//! each trigger event, and their decoding into a [`DAQSample`].
//!
//! Layout: byte 0 is the start marker, bytes 1 and 2 the trigger identifier
//! (big-endian), bytes 3 to 10 the trigger clock count (big-endian), bytes 11
//! to 14 a status word (big-endian) whose low 24 bits are the channel pattern,
//! bit 30 the internal-trigger flag and bit 31 the veto flag, and byte 15 the
//! end marker.

use vstd::prelude::*;

verus! {

/// Length of an event frame in bytes.
pub const FRAME_BYTES: usize = 16;

/// First byte of every valid frame.
pub const START_MARKER: u8 = 0x7E;

/// Last byte of every valid frame.
pub const END_MARKER: u8 = 0x7D;

/// Mask of the channel-pattern bits in the status word.
pub const TRIGGER_DATA_MASK: u32 = 0x00FF_FFFF;

/// Bit of the status word that carries the veto flag.
pub const VETO_BIT: u32 = 31;

/// Bit of the status word that carries the internal-trigger flag.
pub const INTERNAL_TRIGGER_BIT: u32 = 30;

/// One decoded trigger event.
#[derive(Clone, Copy, Debug, PartialEq, Eq, Structural)]
pub struct DAQSample {
    pub trigger_id: u16,
    pub trigger_clk: u64,
    /// Channel pattern; only the low 24 bits can be set.
    pub trigger_data: u32,
    pub veto_in: bool,
    pub internal_trigger: bool,
}

/// Why a frame was rejected.
#[derive(Clone, Copy, Debug, PartialEq, Eq, Structural)]
pub enum FrameError {
    /// The start or the end marker is wrong.
    Framing,
}

/// 256 to the power `n`.
pub open spec fn byte_radix(n: nat) -> nat
    decreases n,
{
    if n == 0 {
        1
    } else {
        256 * byte_radix((n - 1) as nat)
    }
}

/// The number whose big-endian bytes are `s`.
pub open spec fn be_value(s: Seq<u8>) -> nat
    decreases s.len(),
{
    if s.len() == 0 {
        0
    } else {
        be_value(s.drop_last()) * 256 + s.last() as nat
    }
}

/// The `n` big-endian bytes of `v` modulo 256^n.
pub open spec fn be_bytes(v: nat, n: nat) -> Seq<u8>
    decreases n,
{
    if n == 0 {
        Seq::empty()
    } else {
        be_bytes(v / 256, (n - 1) as nat).push((v % 256) as u8)
    }
}

/// Whether both markers of the frame `b` are right.
pub open spec fn framed(b: Seq<u8>) -> bool {
    b[0] == START_MARKER && b[FRAME_BYTES - 1] == END_MARKER
}

/// The status word of the frame `b`.
pub open spec fn status_word(b: Seq<u8>) -> u32 {
    be_value(b.subrange(11, 15)) as u32
}

/// The fields that the frame `b` carries.
pub open spec fn sample_of(b: Seq<u8>) -> DAQSample {
    let w = status_word(b);
    DAQSample {
        trigger_id: be_value(b.subrange(1, 3)) as u16,
        trigger_clk: be_value(b.subrange(3, 11)) as u64,
        trigger_data: w & TRIGGER_DATA_MASK,
        veto_in: (w >> VETO_BIT) & 1 == 1,
        internal_trigger: (w >> INTERNAL_TRIGGER_BIT) & 1 == 1,
    }
}

/// What decoding the frame `b` yields.
pub open spec fn decoded(b: Seq<u8>) -> Result<DAQSample, FrameError> {
    if framed(b) {
        Ok(sample_of(b))
    } else {
        Err(FrameError::Framing)
    }
}

/// Whether every field of `s` lies in the range that a frame can carry.
pub open spec fn sample_valid(s: DAQSample) -> bool {
    s.trigger_data <= TRIGGER_DATA_MASK
}

/// The status word that carries the pattern and the flags of `s`.
pub open spec fn status_word_of(s: DAQSample) -> u32 {
    s.trigger_data | (if s.veto_in {
        0x8000_0000u32
    } else {
        0u32
    }) | (if s.internal_trigger {
        0x4000_0000u32
    } else {
        0u32
    })
}

/// The frame that the logic device sends for the event `s`.
pub open spec fn wire_frame(s: DAQSample) -> Seq<u8> {
    seq![START_MARKER] + be_bytes(s.trigger_id as nat, 2) + be_bytes(s.trigger_clk as nat, 8)
        + be_bytes(status_word_of(s) as nat, 4) + seq![END_MARKER]
}

proof fn lemma_byte_radix_monotonic(a: nat, b: nat)
    requires
        a <= b,
    ensures
        byte_radix(a) <= byte_radix(b),
    decreases b - a,
{
    if a < b {
        lemma_byte_radix_monotonic(a, (b - 1) as nat);
    }
}

proof fn lemma_be_value_bound(s: Seq<u8>)
    ensures
        be_value(s) < byte_radix(s.len()),
    decreases s.len(),
{
    if s.len() > 0 {
        let init = s.drop_last();
        lemma_be_value_bound(init);
        let r = byte_radix(init.len());
        let v = be_value(init);
        let l = s.last() as nat;
        assert(v * 256 + l < 256 * r) by (nonlinear_arith)
            requires
                v < r,
                l < 256,
        ;
    }
}

proof fn lemma_be_round_trip(v: nat, n: nat)
    requires
        v < byte_radix(n),
    ensures
        be_bytes(v, n).len() == n,
        be_value(be_bytes(v, n)) == v,
    decreases n,
{
    if n > 0 {
        let r = byte_radix((n - 1) as nat);
        assert(v / 256 < r) by (nonlinear_arith)
            requires
                v < 256 * r,
        ;
        lemma_be_round_trip(v / 256, (n - 1) as nat);
        let b = be_bytes(v, n);
        assert(b.drop_last() =~= be_bytes(v / 256, (n - 1) as nat));
        assert((v / 256) * 256 + v % 256 == v) by (nonlinear_arith);
    }
}

/// Reads the big-endian number in `bytes[from..to]`.
fn read_be(bytes: &[u8; FRAME_BYTES], from: usize, to: usize) -> (v: u64)
    requires
        from <= to <= FRAME_BYTES,
        to - from <= 8,
    ensures
        v == be_value(bytes@.subrange(from as int, to as int)),
{
    let mut v: u64 = 0;
    let mut i: usize = from;
    assert(bytes@.subrange(from as int, from as int) =~= Seq::<u8>::empty());
    while i < to
        invariant
            from <= i <= to,
            to <= FRAME_BYTES,
            to - from <= 8,
            v == be_value(bytes@.subrange(from as int, i as int)),
        decreases to - i,
    {
        let ghost prefix = bytes@.subrange(from as int, i as int);
        let ghost next = bytes@.subrange(from as int, i + 1);
        proof {
            assert(next.drop_last() =~= prefix);
            lemma_be_value_bound(next);
            lemma_byte_radix_monotonic(next.len(), 8);
            reveal_with_fuel(byte_radix, 9);
        }
        v = v * 256 + bytes[i] as u64;
        i = i + 1;
    }
    v
}

/// Decodes one event frame. A frame whose start or end marker is wrong is
/// rejected before any field is read.
pub fn decode(bytes: &[u8; FRAME_BYTES]) -> (r: Result<DAQSample, FrameError>)
    ensures
        r == decoded(bytes@),
        r is Err <==> bytes@[0] != START_MARKER || bytes@[FRAME_BYTES - 1] != END_MARKER,
{
    if bytes[0] != START_MARKER || bytes[FRAME_BYTES - 1] != END_MARKER {
        return Err(FrameError::Framing);
    }
    let trigger_id = read_be(bytes, 1, 3) as u16;
    let trigger_clk = read_be(bytes, 3, 11);
    let word = read_be(bytes, 11, 15) as u32;
    Ok(
        DAQSample {
            trigger_id,
            trigger_clk,
            trigger_data: word & TRIGGER_DATA_MASK,
            veto_in: (word >> VETO_BIT) & 1 == 1,
            internal_trigger: (word >> INTERNAL_TRIGGER_BIT) & 1 == 1,
        },
    )
}

/// Decoding the frame that the logic device sends for an event gives back
/// every field of that event.
pub proof fn lemma_decode_wire_frame(s: DAQSample)
    requires
        sample_valid(s),
    ensures
        wire_frame(s).len() == FRAME_BYTES,
        framed(wire_frame(s)),
        decoded(wire_frame(s)) == Ok::<DAQSample, FrameError>(s),
{
    let w = status_word_of(s);
    reveal_with_fuel(byte_radix, 9);
    lemma_be_round_trip(s.trigger_id as nat, 2);
    lemma_be_round_trip(s.trigger_clk as nat, 8);
    lemma_be_round_trip(w as nat, 4);
    let b = wire_frame(s);
    assert(b.subrange(1, 3) =~= be_bytes(s.trigger_id as nat, 2));
    assert(b.subrange(3, 11) =~= be_bytes(s.trigger_clk as nat, 8));
    assert(b.subrange(11, 15) =~= be_bytes(w as nat, 4));
    let data = s.trigger_data;
    let veto = s.veto_in;
    let internal = s.internal_trigger;
    assert(w & TRIGGER_DATA_MASK == data && ((w >> VETO_BIT) & 1 == 1) == veto && ((w
        >> INTERNAL_TRIGGER_BIT) & 1 == 1) == internal) by (bit_vector)
        requires
            data <= 0x00FF_FFFF,
            w == data | (if veto {
                0x8000_0000u32
            } else {
                0u32
            }) | (if internal {
                0x4000_0000u32
            } else {
                0u32
            }),
    ;
    assert(sample_of(b) == s);
}

} // verus!
