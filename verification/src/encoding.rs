//! Bit-level encoding of the LED protocol: how a brightness/color command is
//! laid out as bytes, how each byte is serialized onto the data line most
//! significant bit first, and the exact sequence of wire commands (data
//! level, clock edges, holds) that carries each bit.

use vstd::prelude::*;

verus! {

/// Half of one clock cycle, in nanoseconds: how long the clock line is held
/// after each edge. A lower bound, not an exact schedule.
pub const HALF_CYCLE_NS: u32 = 500;

/// One command issued to the two-wire LED link, as recorded at the trusted
/// pin boundary.
pub enum WireEvent {
    /// The data line set to the given level (true = high).
    Data(bool),
    /// The clock line driven high.
    ClockHigh,
    /// The clock line driven low.
    ClockLow,
    /// The link held still for at least the given number of nanoseconds.
    Hold(u32),
}

/// Brightness after the driver's range rule: values above 31 collapse to the
/// minimum non-zero brightness 1 (a quirk kept on purpose; they are not
/// clamped to 31).
pub open spec fn clamped_brightness_spec(br: u8) -> u8 {
    if br > 31 {
        1
    } else {
        br
    }
}

/// The command byte that opens the color part of a frame: 224 plus the
/// clamped brightness, so its top three bits are always set.
pub open spec fn command_byte_spec(br: u8) -> u8 {
    (224 + clamped_brightness_spec(br)) as u8
}

/// The value of data bit `i` of `v`, where bit 0 is the most significant.
pub open spec fn bit_at(v: u8, i: int) -> bool {
    (v >> ((7 - i) as u8)) & 1 == 1
}

/// The eight data-line values that serializing `v` produces, in the order
/// they are clocked out: most significant bit first.
pub open spec fn byte_bits_spec(v: u8) -> Seq<bool> {
    Seq::new(8, |i: int| bit_at(v, i))
}

/// The five wire commands that send one bit: the data line set to the bit's
/// value before the clock rises, then one clock pulse, the line held still
/// after each clock edge. The data line does not change while the clock is
/// high.
pub open spec fn bit_events(b: bool) -> Seq<WireEvent> {
    seq![
        WireEvent::Data(b),
        WireEvent::ClockHigh,
        WireEvent::Hold(HALF_CYCLE_NS),
        WireEvent::ClockLow,
        WireEvent::Hold(HALF_CYCLE_NS),
    ]
}

/// Wire commands for a sequence of data bits, in transmission order.
pub open spec fn events_of_bits(bits: Seq<bool>) -> Seq<WireEvent>
    decreases bits.len(),
{
    if bits.len() == 0 {
        Seq::empty()
    } else {
        events_of_bits(bits.drop_last()) + bit_events(bits.last())
    }
}

/// The wire commands that serialize one byte: its eight bits, most
/// significant first, each sent as `bit_events` says.
pub open spec fn byte_events(v: u8) -> Seq<WireEvent> {
    events_of_bits(byte_bits_spec(v))
}

/// Wire commands for a whole sequence of bytes, in transmission order.
pub open spec fn events_of_bytes(s: Seq<u8>) -> Seq<WireEvent>
    decreases s.len(),
{
    if s.len() == 0 {
        Seq::empty()
    } else {
        events_of_bytes(s.drop_last()) + byte_events(s.last())
    }
}

/// The twelve bytes that one color command clocks out, in order: four zero
/// bytes opening the frame, the command byte, the color in blue, green, red
/// order, and four 255 bytes closing the frame.
pub open spec fn frame_bytes_spec(br: u8, r: u8, g: u8, b: u8) -> Seq<u8> {
    seq![0u8, 0u8, 0u8, 0u8, command_byte_spec(br), b, g, r, 255u8, 255u8, 255u8, 255u8]
}

/// The full wire-command sequence of one color command.
pub open spec fn frame_events_spec(br: u8, r: u8, g: u8, b: u8) -> Seq<WireEvent> {
    events_of_bytes(frame_bytes_spec(br, r, g, b))
}

/// Applies the brightness range rule: inputs above 31 become 1.
pub fn clamped_brightness(br: u8) -> (c: u8)
    ensures
        c == clamped_brightness_spec(br),
        c <= 31,
{
    if br > 31 {
        1
    } else {
        br
    }
}

/// Computes the command byte for the given brightness input.
pub fn command_byte(br: u8) -> (c: u8)
    ensures
        c == command_byte_spec(br),
{
    224 + clamped_brightness(br)
}

/// Serializes one byte into the eight data-line values it is sent as,
/// most significant bit first.
pub fn byte_bits(v: u8) -> (bits: Vec<bool>)
    ensures
        bits@ == byte_bits_spec(v),
{
    let mut bits: Vec<bool> = Vec::new();
    let mut i: usize = 0;
    while i < 8
        invariant
            i <= 8,
            bits@.len() == i,
            forall|j: int| 0 <= j < i ==> bits@[j] == bit_at(v, j),
        decreases 8 - i,
    {
        let shift: u8 = (7 - i) as u8;
        bits.push((v >> shift) & 1 == 1);
        i += 1;
    }
    proof {
        assert(bits@ =~= byte_bits_spec(v));
    }
    bits
}

/// Builds the twelve bytes of one color command.
pub fn frame(br: u8, r: u8, g: u8, b: u8) -> (bytes: Vec<u8>)
    ensures
        bytes@ == frame_bytes_spec(br, r, g, b),
{
    let cmd = command_byte(br);
    let mut bytes: Vec<u8> = Vec::new();
    bytes.push(0);
    bytes.push(0);
    bytes.push(0);
    bytes.push(0);
    bytes.push(cmd);
    bytes.push(b);
    bytes.push(g);
    bytes.push(r);
    bytes.push(255);
    bytes.push(255);
    bytes.push(255);
    bytes.push(255);
    proof {
        assert(bytes@ =~= frame_bytes_spec(br, r, g, b));
    }
    bytes
}

/// Law: for brightness inputs up to 31 the command byte is 224 plus the
/// input; for every input of 32 or more it is 225, however large the input.
pub proof fn lemma_command_byte(br: u8, r: u8, g: u8, b: u8)
    ensures
        br <= 31 ==> frame_bytes_spec(br, r, g, b)[4] == 224 + br,
        br >= 32 ==> frame_bytes_spec(br, r, g, b)[4] == 225,
{
}

/// Law: serializing one byte yields exactly eight data-line values, the most
/// significant bit first.
pub proof fn lemma_byte_bits_msb_first(v: u8)
    ensures
        byte_bits_spec(v).len() == 8,
        forall|i: int| 0 <= i < 8 ==> byte_bits_spec(v)[i] == ((v >> ((7 - i) as u8)) & 1 == 1),
{
}

/// Law: one color command emits, in order, four zero bytes, the command
/// byte, then the blue, green and red bytes, then four 255 bytes: twelve
/// bytes in all.
pub proof fn lemma_frame_layout(br: u8, r: u8, g: u8, b: u8)
    ensures
        frame_bytes_spec(br, r, g, b).len() == 12,
        forall|i: int| 0 <= i < 4 ==> frame_bytes_spec(br, r, g, b)[i] == 0,
        frame_bytes_spec(br, r, g, b)[4] == command_byte_spec(br),
        frame_bytes_spec(br, r, g, b)[5] == b,
        frame_bytes_spec(br, r, g, b)[6] == g,
        frame_bytes_spec(br, r, g, b)[7] == r,
        forall|i: int| 8 <= i < 12 ==> frame_bytes_spec(br, r, g, b)[i] == 255,
{
}

/// Law: turning the LED off sends the same frame as a color command with
/// zero brightness and zero color: command byte 224, zero color bytes, and
/// the standard frame delimiters.
pub proof fn lemma_led_off_frame()
    ensures
        frame_bytes_spec(0, 0, 0, 0)
            =~= seq![0u8, 0u8, 0u8, 0u8, 224u8, 0u8, 0u8, 0u8, 255u8, 255u8, 255u8, 255u8],
{
}

/// Sending the bits of `bits.take(i + 1)` is sending those of `bits.take(i)`
/// and then bit `i`.
pub proof fn lemma_events_of_bits_take_step(bits: Seq<bool>, i: int)
    requires
        0 <= i < bits.len(),
    ensures
        events_of_bits(bits.take(i + 1)) == events_of_bits(bits.take(i)) + bit_events(bits[i]),
{
    assert(bits.take(i + 1).drop_last() =~= bits.take(i));
}

/// Appending one byte to a transmission appends that byte's wire commands.
pub proof fn lemma_events_of_bytes_push(s: Seq<u8>, v: u8)
    ensures
        events_of_bytes(s.push(v)) == events_of_bytes(s) + byte_events(v),
{
    assert(s.push(v).drop_last() =~= s);
}

/// The wire commands of four identical bytes, unrolled.
pub proof fn lemma_events_of_bytes_four(v: u8)
    ensures
        events_of_bytes(seq![v, v, v, v]) == ((byte_events(v) + byte_events(v)) + byte_events(v))
            + byte_events(v),
{
    let s1 = seq![v];
    let s2 = seq![v, v];
    let s3 = seq![v, v, v];
    let s4 = seq![v, v, v, v];
    lemma_events_of_bytes_push(Seq::empty(), v);
    lemma_events_of_bytes_push(s1, v);
    lemma_events_of_bytes_push(s2, v);
    lemma_events_of_bytes_push(s3, v);
    assert(Seq::<u8>::empty().push(v) =~= s1);
    assert(s1.push(v) =~= s2);
    assert(s2.push(v) =~= s3);
    assert(s3.push(v) =~= s4);
    assert(events_of_bytes(s4) =~= ((byte_events(v) + byte_events(v)) + byte_events(v))
        + byte_events(v));
}

/// The wire commands of a concatenation are the concatenation of the wire
/// commands.
pub proof fn lemma_events_of_bytes_concat(a: Seq<u8>, b: Seq<u8>)
    ensures
        events_of_bytes(a + b) == events_of_bytes(a) + events_of_bytes(b),
    decreases b.len(),
{
    if b.len() == 0 {
        assert(a + b =~= a);
        assert(events_of_bytes(a) + events_of_bytes(b) =~= events_of_bytes(a));
    } else {
        lemma_events_of_bytes_concat(a, b.drop_last());
        assert((a + b).drop_last() =~= a + b.drop_last());
        assert(events_of_bytes(a) + events_of_bytes(b)
            =~= (events_of_bytes(a) + events_of_bytes(b.drop_last())) + byte_events(b.last()));
    }
}

/// The five wire commands of bit `i` within a command sequence: commands
/// `5 * i` up to `5 * i + 5`.
pub open spec fn bit_window(e: Seq<WireEvent>, i: int) -> Seq<WireEvent> {
    e.subrange(5 * i, 5 * i + 5)
}

/// Law: sending a sequence of bits issues exactly five wire commands per
/// bit, and the commands for bit `i` are exactly `bit_events(bits[i])`: the
/// data line is set to the bit's value before the clock rises, the data line
/// never changes while the clock is high, and each bit leaves the clock line
/// low.
pub proof fn lemma_events_of_bits_windows(bits: Seq<bool>)
    ensures
        events_of_bits(bits).len() == 5 * bits.len(),
        forall|i: int|
            0 <= i < bits.len() ==> #[trigger] bit_window(events_of_bits(bits), i) == bit_events(
                bits[i],
            ),
    decreases bits.len(),
{
    if bits.len() == 0 {
    } else {
        let pre = bits.drop_last();
        lemma_events_of_bits_windows(pre);
        let e = events_of_bits(bits);
        let ep = events_of_bits(pre);
        let tail = bit_events(bits.last());
        assert forall|i: int| 0 <= i < bits.len() implies #[trigger] bit_window(e, i)
            == bit_events(bits[i]) by {
            if i < bits.len() - 1 {
                assert(bit_window(e, i) =~= bit_window(ep, i));
                assert(pre[i] == bits[i]);
            } else {
                assert(bit_window(e, i) =~= tail);
            }
        }
    }
}

/// Law: serializing any byte issues exactly forty wire commands — five per
/// bit, most significant first — and on return the clock line has last been
/// driven low and the data line last set to the byte's least significant
/// bit.
pub proof fn lemma_byte_events_discipline(v: u8)
    ensures
        byte_events(v).len() == 40,
        forall|i: int|
            0 <= i < 8 ==> #[trigger] bit_window(byte_events(v), i) == bit_events(bit_at(v, i)),
        byte_events(v)[35] == WireEvent::Data(bit_at(v, 7)),
        byte_events(v)[38] == WireEvent::ClockLow,
        byte_events(v)[39] == WireEvent::Hold(HALF_CYCLE_NS),
{
    lemma_events_of_bits_windows(byte_bits_spec(v));
    let e = byte_events(v);
    let w = bit_events(byte_bits_spec(v)[7]);
    assert(bit_window(e, 7) == w);
    assert(e[35] == bit_window(e, 7)[0]);
    assert(e[38] == bit_window(e, 7)[3]);
    assert(e[39] == bit_window(e, 7)[4]);
}

} // verus!
