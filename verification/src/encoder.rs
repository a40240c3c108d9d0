use vstd::prelude::*;

use vstd::arithmetic::div_mod::{
    lemma_add_mod_noop, lemma_div_pos_is_pos, lemma_mod_add_multiples_vanish, lemma_mod_bound,
    lemma_mod_self_0, lemma_mod_twice, lemma_multiply_divide_lt, lemma_small_mod,
};

verus! {

/// Per-encoder state kept between polls.
#[derive(Clone, Copy, Debug, PartialEq, Eq)]
pub struct EncoderState {
    /// The previous raw value reported by the encoder's tick counter.
    pub prev_value: u32,
    /// The accumulated rotational position, in ticks, kept within
    /// `[0, ticks-per-revolution)`.
    pub curr_value: i32,
}

impl Default for EncoderState {
    /// An encoder that has not moved from its zero position.
    fn default() -> (state: EncoderState)
        ensures
            state == (EncoderState { prev_value: 0, curr_value: 0 }),
    {
        EncoderState { prev_value: 0, curr_value: 0 }
    }
}

/// Whether the accumulated position lies within one revolution.
pub open spec fn encoder_in_range(state: EncoderState, pulse: i32) -> bool {
    0 <= state.curr_value < pulse
}

/// The signed rotation, in ticks, between two readings of the raw counter:
/// the unique value congruent to `value - prev` modulo 2^32 that lies in
/// `[-2^31, 2^31)`. The counter wraps at its own width; only the difference
/// matters, and the sign is meaningful only while the true movement between
/// polls stays below half the counter range.
pub open spec fn tick_delta(prev: u32, value: u32) -> int {
    let diff = if value >= prev {
        value - prev
    } else {
        value - prev + 0x1_0000_0000
    };
    if diff >= 0x8000_0000 {
        diff - 0x1_0000_0000
    } else {
        diff
    }
}

/// The tick delta with the configured direction applied.
pub open spec fn signed_delta(prev: u32, value: u32, reverse: bool) -> int {
    if reverse {
        -tick_delta(prev, value)
    } else {
        tick_delta(prev, value)
    }
}

/// The accumulated position after applying one signed delta and wrapping it
/// back into `[0, pulse)`.
pub open spec fn stepped_position(curr: int, delta: int, pulse: int) -> int {
    (curr + delta) % pulse
}

/// The encoder state after consuming one raw counter reading.
pub open spec fn encoder_step(state: EncoderState, value: u32, pulse: int, reverse: bool) -> EncoderState {
    EncoderState {
        prev_value: value,
        curr_value: stepped_position(
            state.curr_value as int,
            signed_delta(state.prev_value, value, reverse),
            pulse,
        ) as i32,
    }
}

/// The position scaled to an axis byte: `floor(curr / pulse * 256)`.
pub open spec fn scaled_position(curr: int, pulse: int) -> int {
    (curr * 256) / pulse
}

/// Consumes one reading of an encoder's raw tick counter, if the sequencer
/// produced one, and reports the accumulated position as an axis byte.
///
/// A reading moves the accumulated position by the wraparound-safe signed
/// difference from the previous reading (negated when `reverse` is set) and
/// wraps it back into `[0, pulse)`; no reading leaves the state untouched.
/// Calling again with an unchanged reading therefore never drifts. The axis
/// byte scales the position so that a full revolution spans the byte range.
pub fn parse_encoder(value: Option<u32>, state: &mut EncoderState, pulse: i32, reverse: bool) -> (axis: u8)
    requires
        1 <= pulse,
        encoder_in_range(*old(state), pulse),
    ensures
        *final(state) == match value {
            Some(v) => encoder_step(*old(state), v, pulse as int, reverse),
            None => *old(state),
        },
        encoder_in_range(*final(state), pulse),
        axis == scaled_position(final(state).curr_value as int, pulse as int),
{
    if let Some(v) = value {
        let diff: u32 = v.wrapping_sub(state.prev_value);
        let magnitude: i64 = if diff >= 0x8000_0000 {
            (diff as i64) - 0x1_0000_0000i64
        } else {
            diff as i64
        };
        let delta: i64 = if reverse {
            -magnitude
        } else {
            magnitude
        };
        let pulse_wide: i64 = pulse as i64;
        let ghost start: int = state.curr_value + delta;
        let mut position: i64 = (state.curr_value as i64) + delta;
        while position < 0
            invariant
                pulse_wide == pulse,
                1 <= pulse_wide <= i32::MAX,
                position <= i32::MAX + pulse_wide,
                (position as int) % (pulse_wide as int) == start % (pulse_wide as int),
            decreases
                    (if position < 0 {
                        -position
                    } else {
                        0
                    }),
        {
            proof {
                lemma_mod_add_multiples_vanish(position as int, pulse_wide as int);
            }
            position = position + pulse_wide;
        }

        let unsigned: u64 = position as u64;
        let pulse_unsigned: u64 = pulse as u64;
        let wrapped: u64 = unsigned % pulse_unsigned;
        proof {
            lemma_mod_bound(unsigned as int, pulse as int);
        }
        state.curr_value = wrapped as i32;
        state.prev_value = v;
    }

    let scaled: u64 = ((state.curr_value as u64) * 256) / (pulse as u64);
    proof {
        lemma_div_pos_is_pos((state.curr_value as int) * 256, pulse as int);
        lemma_multiply_divide_lt((state.curr_value as int) * 256, pulse as int, 256);
    }
    scaled as u8
}

/// The encoder state after consuming a whole sequence of raw readings.
pub open spec fn encoder_run(state: EncoderState, ticks: Seq<u32>, pulse: int, reverse: bool) -> EncoderState
    decreases ticks.len(),
{
    if ticks.len() == 0 {
        state
    } else {
        encoder_run(encoder_step(state, ticks[0], pulse, reverse), ticks.drop_first(), pulse, reverse)
    }
}

/// The cumulative signed rotation, in ticks, of a sequence of raw readings.
pub open spec fn total_delta(prev: u32, ticks: Seq<u32>, reverse: bool) -> int
    decreases ticks.len(),
{
    if ticks.len() == 0 {
        0
    } else {
        signed_delta(prev, ticks[0], reverse) + total_delta(ticks[0], ticks.drop_first(), reverse)
    }
}

/// Taking a value modulo `m` before adding to it does not change the
/// remainder of the sum.
proof fn lemma_mod_then_add(a: int, b: int, m: int)
    requires
        0 < m,
    ensures
        ((a % m) + b) % m == (a + b) % m,
{
    lemma_add_mod_noop(a, b, m);
    lemma_add_mod_noop(a % m, b, m);
    lemma_mod_twice(a, m);
}

/// Over any sequence of raw readings, the accumulated position stays within
/// one revolution after every update, and the run ends at the starting
/// position plus the cumulative rotation, wrapped into the revolution.
pub proof fn lemma_encoder_run(state: EncoderState, ticks: Seq<u32>, pulse: int, reverse: bool)
    requires
        1 <= pulse <= i32::MAX,
        0 <= state.curr_value < pulse,
    ensures
        0 <= encoder_run(state, ticks, pulse, reverse).curr_value < pulse,
        encoder_run(state, ticks, pulse, reverse).curr_value == (state.curr_value + total_delta(
            state.prev_value,
            ticks,
            reverse,
        )) % pulse,
    decreases ticks.len(),
{
    if ticks.len() == 0 {
        lemma_small_mod(state.curr_value as nat, pulse as nat);
    } else {
        let first_delta = signed_delta(state.prev_value, ticks[0], reverse);
        let rest_delta = total_delta(ticks[0], ticks.drop_first(), reverse);
        let next = encoder_step(state, ticks[0], pulse, reverse);
        lemma_mod_bound(state.curr_value + first_delta, pulse);
        lemma_encoder_run(next, ticks.drop_first(), pulse, reverse);
        lemma_mod_then_add(state.curr_value + first_delta, rest_delta, pulse);
    }
}

/// The reading `steps` ticks forward of `prev` on the wrapping counter.
pub open spec fn advanced_reading(prev: u32, steps: int) -> u32 {
    ((prev + steps) % 0x1_0000_0000) as u32
}

/// The readings produced by `count` consecutive unit steps of the raw
/// counter, starting one tick after `prev`.
pub open spec fn unit_ticks(prev: u32, count: nat) -> Seq<u32> {
    Seq::new(count, |i: int| advanced_reading(prev, i + 1))
}

/// A single unit step of the counter, even across the wrap, is one tick of
/// forward rotation.
proof fn lemma_unit_step_delta(prev: u32)
    ensures
        signed_delta(prev, advanced_reading(prev, 1), false) == 1,
{
    if prev < 0xFFFF_FFFF {
        lemma_small_mod((prev + 1) as nat, 0x1_0000_0000);
    } else {
        lemma_mod_self_0(0x1_0000_0000);
    }
}

/// Consecutive unit steps accumulate one tick of rotation each.
proof fn lemma_unit_ticks_delta(prev: u32, count: nat)
    ensures
        total_delta(prev, unit_ticks(prev, count), false) == count,
    decreases count,
{
    if count > 0 {
        let ticks = unit_ticks(prev, count);
        let first = advanced_reading(prev, 1);
        lemma_mod_bound(prev + 1, 0x1_0000_0000);
        lemma_unit_step_delta(prev);
        assert forall|i: int| 0 <= i < count - 1 implies ticks.drop_first()[i] == unit_ticks(
            first,
            (count - 1) as nat,
        )[i] by {
            lemma_mod_bound(prev + i + 2, 0x1_0000_0000);
            lemma_mod_then_add(prev + 1, i + 1, 0x1_0000_0000);
        }
        assert(ticks.drop_first() =~= unit_ticks(first, (count - 1) as nat));
        lemma_unit_ticks_delta(first, (count - 1) as nat);
    }
}

/// Full-revolution idempotence: feeding one revolution's worth of
/// consecutive unit deltas returns the accumulated position to its
/// starting value.
pub proof fn lemma_full_revolution(state: EncoderState, pulse: int)
    requires
        1 <= pulse <= i32::MAX,
        0 <= state.curr_value < pulse,
    ensures
        encoder_run(state, unit_ticks(state.prev_value, pulse as nat), pulse, false).curr_value
            == state.curr_value,
{
    lemma_unit_ticks_delta(state.prev_value, pulse as nat);
    lemma_encoder_run(state, unit_ticks(state.prev_value, pulse as nat), pulse, false);
    lemma_mod_add_multiples_vanish(state.curr_value as int, pulse);
    lemma_small_mod(state.curr_value as nat, pulse as nat);
}

/// The reversal flag negates the rotation a raw sequence contributes.
pub proof fn lemma_reversed_total_delta(prev: u32, ticks: Seq<u32>)
    ensures
        total_delta(prev, ticks, true) == -total_delta(prev, ticks, false),
    decreases ticks.len(),
{
    if ticks.len() > 0 {
        lemma_reversed_total_delta(ticks[0], ticks.drop_first());
    }
}

/// The reversal flag negates the sign of the accumulated position's
/// response: over the same raw readings, the reversed run ends at the start
/// minus the rotation the forward run adds, wrapped into the revolution.
pub proof fn lemma_reverse_negates_response(state: EncoderState, ticks: Seq<u32>, pulse: int)
    requires
        1 <= pulse <= i32::MAX,
        0 <= state.curr_value < pulse,
    ensures
        encoder_run(state, ticks, pulse, true).curr_value == (state.curr_value - total_delta(
            state.prev_value,
            ticks,
            false,
        )) % pulse,
        encoder_run(state, ticks, pulse, false).curr_value == (state.curr_value + total_delta(
            state.prev_value,
            ticks,
            false,
        )) % pulse,
{
    lemma_reversed_total_delta(state.prev_value, ticks);
    lemma_encoder_run(state, ticks, pulse, true);
    lemma_encoder_run(state, ticks, pulse, false);
}

} // verus!
