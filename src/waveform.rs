//! The outbound waveform: one frame of pin words per broadcast tick.
//!
//! Slot 0 drives the channel pattern, slot 4 the trigger strobe alone, slots
//! 5 to 20 the sixteen bits of the trigger identifier (most significant bit
//! first) on the identifier pin; every other slot is zero.

use vstd::prelude::*;

verus! {

/// Number of words in one frame handed to the shift-out engine.
pub const FRAME_LEN: usize = 64;

/// Slot that holds the strobe word.
pub const STROBE_SLOT: usize = 4;

/// First of the sixteen identifier slots.
pub const ID_FIRST_SLOT: usize = 5;

/// Number of identifier bits sent per frame.
pub const ID_BITS: usize = 16;

/// Pin word with only the trigger-strobe pin (bit 27) high.
pub const STROBE_WORD: u32 = 0x0800_0000;

/// Pin word with only the identifier pin (bit 26) high.
pub const ID_WORD: u32 = 0x0400_0000;

/// Channels 0 to 22 map one to one onto pins 0 to 22.
pub const CHANNEL_LOW_MASK: u32 = 0x007F_FFFF;

/// Channel 23 is routed to pin 25.
pub const RELOCATED_CHANNEL: u32 = 23;

/// Pin word with only the pin of the relocated channel high.
pub const RELOCATED_WORD: u32 = 0x0200_0000;

/// Whether channel `channel` is set in `pattern`.
pub open spec fn channel_set(pattern: u32, channel: u32) -> bool {
    (pattern >> channel) & 1 == 1
}

/// The pin word that drives `pattern` on the channel pins: the low 23
/// channels in place, channel 23 moved to its own pin, higher bits dropped.
pub open spec fn pattern_word(pattern: u32) -> u32 {
    (pattern & CHANNEL_LOW_MASK) | (if channel_set(pattern, RELOCATED_CHANNEL) {
        RELOCATED_WORD
    } else {
        0
    })
}

/// Whether bit `bit` of the identifier is one.
pub open spec fn id_bit(id: u16, bit: u16) -> bool {
    (id >> bit) & 1 == 1
}

/// The pin word that sends bit `bit` of `id` on the identifier pin.
pub open spec fn id_bit_word(id: u16, bit: u16) -> u32 {
    if id_bit(id, bit) {
        ID_WORD
    } else {
        0
    }
}

/// Word `i` of the frame for identifier `id` and channel pattern `pattern`.
pub open spec fn frame_slot(id: u16, pattern: u32, i: int) -> u32 {
    if i == 0 {
        pattern_word(pattern)
    } else if i == STROBE_SLOT {
        STROBE_WORD
    } else if ID_FIRST_SLOT <= i < ID_FIRST_SLOT + ID_BITS {
        id_bit_word(id, (ID_FIRST_SLOT + ID_BITS - 1 - i) as u16)
    } else {
        0
    }
}

/// The frame of `len` words for identifier `id` and pattern `pattern`.
pub open spec fn waveform(id: u16, pattern: u32, len: nat) -> Seq<u32> {
    Seq::new(len, |i: int| frame_slot(id, pattern, i))
}

/// The identifier that follows `id`, modulo 2^16.
pub open spec fn following_id(id: u16) -> u16 {
    ((id + 1) % 0x1_0000) as u16
}

/// Writes the channel pattern word into slot 0.
fn encode_pins(buffer: &mut [u32], pins: u32)
    requires
        old(buffer)@.len() >= 1,
    ensures
        final(buffer)@ == old(buffer)@.update(0, pattern_word(pins)),
{
    let low = pins & CHANNEL_LOW_MASK;
    let high = if (pins >> RELOCATED_CHANNEL) & 1 == 1 {
        RELOCATED_WORD
    } else {
        0
    };
    buffer[0] = low | high;
}

/// Writes the strobe word at `start` and the identifier bits, most
/// significant first, into the sixteen slots after it.
fn encode_trigger_id(buffer: &mut [u32], start: usize, id: u16)
    requires
        start + ID_BITS < old(buffer)@.len(),
    ensures
        final(buffer)@.len() == old(buffer)@.len(),
        final(buffer)@[start as int] == STROBE_WORD,
        forall|k: int|
            0 <= k < ID_BITS ==> #[trigger] final(buffer)@[start + 1 + k] == id_bit_word(
                id,
                (ID_BITS - 1 - k) as u16,
            ),
        forall|i: int|
            0 <= i < old(buffer)@.len() && !(start <= i <= start + ID_BITS)
                ==> #[trigger] final(buffer)@[i] == old(buffer)@[i],
{
    buffer[start] = STROBE_WORD;
    let len = buffer.len();
    let mut k: usize = 0;
    while k < ID_BITS
        invariant
            len == buffer@.len(),
            start + ID_BITS < buffer@.len(),
            buffer@.len() == old(buffer)@.len(),
            k <= ID_BITS,
            buffer@[start as int] == STROBE_WORD,
            forall|m: int|
                0 <= m < k ==> #[trigger] buffer@[start + 1 + m] == id_bit_word(
                    id,
                    (ID_BITS - 1 - m) as u16,
                ),
            forall|i: int|
                0 <= i < old(buffer)@.len() && !(start <= i <= start + ID_BITS) ==> #[trigger] buffer@[i]
                    == old(buffer)@[i],
        decreases ID_BITS - k,
    {
        let bit = (ID_BITS - 1 - k) as u16;
        let word = if (id >> bit) & 1 == 1 {
            ID_WORD
        } else {
            0
        };
        buffer[start + 1 + k] = word;
        k = k + 1;
    }
}

/// Fills `buffer` with the frame for identifier `id` and channel pattern
/// `pins`. Every slot outside the pattern, strobe and identifier slots is
/// cleared, so nothing of an earlier frame remains.
pub fn encode_event(buffer: &mut [u32], id: u16, pins: u32)
    requires
        old(buffer)@.len() > ID_FIRST_SLOT + ID_BITS,
    ensures
        final(buffer)@ == waveform(id, pins, old(buffer)@.len()),
{
    let len = buffer.len();
    let mut i: usize = 0;
    while i < len
        invariant
            len == buffer@.len(),
            len == old(buffer)@.len(),
            i <= len,
            forall|j: int| 0 <= j < i ==> #[trigger] buffer@[j] == 0u32,
        decreases len - i,
    {
        buffer[i] = 0;
        i = i + 1;
    }
    encode_pins(buffer, pins);
    encode_trigger_id(buffer, STROBE_SLOT, id);
    assert(buffer@ =~= waveform(id, pins, len as nat)) by {
        assert forall|j: int| 0 <= j < len implies #[trigger] buffer@[j] == frame_slot(
            id,
            pins,
            j,
        ) by {
            if ID_FIRST_SLOT <= j < ID_FIRST_SLOT + ID_BITS {
                assert(buffer@[STROBE_SLOT + 1 + (j - ID_FIRST_SLOT)] == buffer@[j]);
            }
        }
    }
}

/// The frame for identifier `id` and channel pattern `pattern`.
pub fn encode(id: u16, pattern: u32) -> (frame: [u32; FRAME_LEN])
    ensures
        frame@ == waveform(id, pattern, FRAME_LEN as nat),
{
    let mut frame = [0u32; FRAME_LEN];
    encode_event(&mut frame, id, pattern);
    frame
}

/// Every frame has the fixed layout: the pattern word in slot 0, the strobe
/// word alone in slot 4, bit `15 - k` of the identifier in slot `5 + k`, and
/// zero in slots 1 to 3 and from slot 21 on.
pub proof fn lemma_frame_layout(id: u16, pattern: u32)
    ensures
        waveform(id, pattern, FRAME_LEN as nat).len() == FRAME_LEN,
        waveform(id, pattern, FRAME_LEN as nat)[0] == pattern_word(pattern),
        waveform(id, pattern, FRAME_LEN as nat)[STROBE_SLOT as int] == STROBE_WORD,
        forall|k: int|
            0 <= k < ID_BITS ==> #[trigger] waveform(id, pattern, FRAME_LEN as nat)[ID_FIRST_SLOT + k]
                == if (id >> ((15 - k) as u16)) & 1 == 1 {
                ID_WORD
            } else {
                0
            },
        forall|i: int|
            (1 <= i < STROBE_SLOT || ID_FIRST_SLOT + ID_BITS <= i < FRAME_LEN) ==> #[trigger] waveform(
                id,
                pattern,
                FRAME_LEN as nat,
            )[i] == 0,
{
}

/// The identifier that follows `id`; 65535 is followed by 0.
pub fn next_trigger_id(id: u16) -> (next: u16)
    ensures
        next == following_id(id),
{
    if id == u16::MAX {
        0
    } else {
        id + 1
    }
}

/// The periodic broadcaster's state: the identifier of the next frame.
pub struct Broadcaster {
    trigger_id: u16,
}

impl View for Broadcaster {
    type V = u16;

    /// The identifier that the next frame carries.
    closed spec fn view(&self) -> u16 {
        self.trigger_id
    }
}

impl Broadcaster {
    /// A broadcaster whose first frame carries `first_id`.
    pub fn new(first_id: u16) -> (b: Broadcaster)
        ensures
            b@ == first_id,
    {
        Broadcaster { trigger_id: first_id }
    }

    /// The identifier that the next frame carries.
    pub fn trigger_id(&self) -> (id: u16)
        ensures
            id == self@,
    {
        self.trigger_id
    }

    /// One broadcast tick: fills `buffer` with the frame for the current
    /// identifier and `pattern`, then advances the identifier.
    pub fn tick(&mut self, buffer: &mut [u32], pattern: u32)
        requires
            old(buffer)@.len() > ID_FIRST_SLOT + ID_BITS,
        ensures
            final(buffer)@ == waveform(old(self)@, pattern, old(buffer)@.len()),
            final(self)@ == following_id(old(self)@),
    {
        encode_event(buffer, self.trigger_id, pattern);
        self.trigger_id = next_trigger_id(self.trigger_id);
    }
}

} // verus!
