use vstd::prelude::*;

use crate::clock::{elapsed_micros, elapsed_since};

verus! {

/// Determines the type of debounce algorithm to use with the micro switches.
#[derive(Clone, Copy, Debug, PartialEq, Eq, Structural)]
pub enum DebounceMode {
    /// Disables debouncing.
    Off,
    /// Immediately reports when a switch is triggered and keeps reporting it
    /// for the configured window after the most recent rising edge.
    /// Also known as "eager debouncing".
    Hold,
    /// Waits for a switch to stay asserted for the configured window before
    /// reporting it. Also known as "deferred debouncing".
    Wait,
}

/// Debounce policy, shared read-only by all switches.
#[derive(Clone, Copy, Debug, PartialEq, Eq, Structural)]
pub struct DebounceConfig {
    /// The debounce algorithm in force.
    pub mode: DebounceMode,
    /// The debounce window, in microseconds.
    pub window_us: u64,
}

/// Per-switch state kept between polls, for debouncing purposes.
#[derive(Clone, Copy, Debug, PartialEq, Eq)]
pub struct SwitchState {
    /// The time of the most recent rising edge, if one was ever seen.
    pub last_debounce_time: Option<u64>,
    /// The raw state (asserted or not) the switch last had.
    pub last_pressed: bool,
}

impl Default for SwitchState {
    /// A switch that has never been seen asserted.
    fn default() -> (state: SwitchState)
        ensures
            state == (SwitchState { last_debounce_time: None, last_pressed: false }),
    {
        SwitchState { last_debounce_time: None, last_pressed: false }
    }
}

/// The rising-edge timestamp after one poll: a transition from not-asserted
/// to asserted records `now`; anything else keeps the stored timestamp.
pub open spec fn debounced_edge(state: SwitchState, raw_is_asserted: bool, now: u64) -> Option<u64> {
    if raw_is_asserted && !state.last_pressed {
        Some(now)
    } else {
        state.last_debounce_time
    }
}

/// The switch state after one poll.
pub open spec fn debounced_state(state: SwitchState, raw_is_asserted: bool, now: u64) -> SwitchState {
    SwitchState {
        last_debounce_time: debounced_edge(state, raw_is_asserted, now),
        last_pressed: raw_is_asserted,
    }
}

/// The debounced logical press reported for one poll.
///
/// `Off` passes the raw state through. `Hold` reports a press while the raw
/// state is asserted or the most recent rising edge lies within the window;
/// with no edge on record it falls back to the raw state. `Wait` reports a
/// press only once the raw state has stayed asserted for at least the window
/// since the most recent rising edge; with no edge on record it reports
/// nothing.
pub open spec fn debounced_output(
    config: DebounceConfig,
    state: SwitchState,
    raw_is_asserted: bool,
    now: u64,
) -> bool {
    match config.mode {
        DebounceMode::Off => raw_is_asserted,
        DebounceMode::Hold => match debounced_edge(state, raw_is_asserted, now) {
            Some(edge) => raw_is_asserted || elapsed_since(now, edge) <= config.window_us,
            None => raw_is_asserted,
        },
        DebounceMode::Wait => match debounced_edge(state, raw_is_asserted, now) {
            Some(edge) => raw_is_asserted && elapsed_since(now, edge) >= config.window_us,
            None => false,
        },
    }
}

/// Runs one debounce step for a single switch: records a rising edge,
/// refreshes the remembered raw state, and returns the debounced logical
/// press for this poll.
pub fn debounce_update(
    raw_is_asserted: bool,
    now: u64,
    state: &mut SwitchState,
    config: &DebounceConfig,
) -> (pressed: bool)
    ensures
        *final(state) == debounced_state(*old(state), raw_is_asserted, now),
        pressed == debounced_output(*config, *old(state), raw_is_asserted, now),
{
    if raw_is_asserted && !state.last_pressed {
        state.last_debounce_time = Some(now);
    }
    state.last_pressed = raw_is_asserted;

    match config.mode {
        DebounceMode::Off => raw_is_asserted,
        DebounceMode::Hold => match state.last_debounce_time {
            Some(edge) => {
                let elapsed = elapsed_micros(now, edge);
                raw_is_asserted || elapsed <= config.window_us
            },
            None => raw_is_asserted,
        },
        DebounceMode::Wait => match state.last_debounce_time {
            Some(edge) => {
                let elapsed = elapsed_micros(now, edge);
                raw_is_asserted && elapsed >= config.window_us
            },
            None => false,
        },
    }
}

/// Hold-mode presses are a superset of raw presses: whenever the raw input
/// is asserted, the debounced output of that poll is asserted too, whatever
/// the switch state and the clock say.
pub proof fn lemma_hold_output_covers_raw(
    config: DebounceConfig,
    state: SwitchState,
    now: u64,
)
    requires
        config.mode == DebounceMode::Hold,
    ensures
        debounced_output(config, state, true, now),
{
}

/// The state of a switch that has never been polled.
pub open spec fn initial_switch_state() -> SwitchState {
    SwitchState { last_debounce_time: None, last_pressed: false }
}

/// The switch state after debouncing a whole sequence of polls, each the
/// poll time paired with the raw level that was read.
pub open spec fn debounce_run(state: SwitchState, samples: Seq<(u64, bool)>) -> SwitchState
    decreases samples.len(),
{
    if samples.len() == 0 {
        state
    } else {
        debounce_run(debounced_state(state, samples[0].1, samples[0].0), samples.drop_first())
    }
}

/// Whether the raw level was read asserted at every poll from `j` on.
pub open spec fn all_asserted_from(samples: Seq<(u64, bool)>, j: int) -> bool {
    forall|k: int| j <= k < samples.len() ==> (#[trigger] samples[k]).1
}

/// What a debounce run records about its history: the remembered raw level
/// is the last one read, and while it is asserted any recorded edge marks a
/// poll since which the raw level has stayed asserted.
spec fn edge_tracks_history(state: SwitchState, samples: Seq<(u64, bool)>) -> bool {
    &&& state.last_pressed == if samples.len() == 0 {
        false
    } else {
        samples.last().1
    }
    &&& state.last_pressed ==> match state.last_debounce_time {
        Some(edge) => exists|j: int|
            0 <= j < samples.len() && (#[trigger] samples[j]).0 == edge && all_asserted_from(
                samples,
                j,
            ),
        None => true,
    }
}

/// Processing one more poll at the end of a run debounces it against the
/// state the run reached.
proof fn lemma_debounce_run_snoc(
    state: SwitchState,
    samples: Seq<(u64, bool)>,
    sample: (u64, bool),
)
    ensures
        debounce_run(state, samples.push(sample)) == debounced_state(
            debounce_run(state, samples),
            sample.1,
            sample.0,
        ),
    decreases samples.len(),
{
    if samples.len() == 0 {
        let stepped = debounced_state(state, sample.1, sample.0);
        assert(samples.push(sample)[0] == sample);
        assert(samples.push(sample).drop_first() =~= Seq::<(u64, bool)>::empty());
        assert(debounce_run(state, samples.push(sample)) == debounce_run(
            stepped,
            samples.push(sample).drop_first(),
        ));
        assert(debounce_run(stepped, Seq::<(u64, bool)>::empty()) == stepped);
    } else {
        let stepped = debounced_state(state, samples[0].1, samples[0].0);
        assert(samples.push(sample)[0] == samples[0]);
        assert(samples.push(sample).drop_first() =~= samples.drop_first().push(sample));
        assert(debounce_run(state, samples.push(sample)) == debounce_run(
            stepped,
            samples.drop_first().push(sample),
        ));
        lemma_debounce_run_snoc(stepped, samples.drop_first(), sample);
        assert(debounce_run(state, samples) == debounce_run(stepped, samples.drop_first()));
    }
}

/// A run from the never-polled state records only honest history.
proof fn lemma_run_tracks_history(samples: Seq<(u64, bool)>)
    ensures
        edge_tracks_history(debounce_run(initial_switch_state(), samples), samples),
    decreases samples.len(),
{
    if samples.len() > 0 {
        let prefix = samples.drop_last();
        let last = samples.last();
        lemma_run_tracks_history(prefix);
        lemma_debounce_run_snoc(initial_switch_state(), prefix, last);
        assert(prefix.push(last) =~= samples);
        let before = debounce_run(initial_switch_state(), prefix);
        let after = debounce_run(initial_switch_state(), samples);
        assert(after == debounced_state(before, last.1, last.0));
        if last.1 {
            if !before.last_pressed {
                let j = samples.len() - 1;
                assert((samples[j]).0 == last.0 && all_asserted_from(samples, j));
            } else {
                match before.last_debounce_time {
                    Some(edge) => {
                        let j = choose|j: int|
                            0 <= j < prefix.len() && (#[trigger] prefix[j]).0 == edge
                                && all_asserted_from(prefix, j);
                        assert(samples[j].0 == edge);
                        assert forall|k: int| j <= k < samples.len() implies (
                        #[trigger] samples[k]).1 by {
                            if k < samples.len() - 1 {
                                assert(prefix[k].1);
                            }
                        }
                        assert((samples[j]).0 == edge && all_asserted_from(samples, j));
                    },
                    None => {},
                }
            }
        }
    }
}

/// Hold-mode presses cover raw presses over whole runs too: after any
/// sequence of polls, a poll that reads the raw input asserted reports an
/// asserted debounced output.
pub proof fn lemma_hold_covers_raw_over_runs(
    config: DebounceConfig,
    samples: Seq<(u64, bool)>,
    now: u64,
)
    requires
        config.mode == DebounceMode::Hold,
    ensures
        debounced_output(config, debounce_run(initial_switch_state(), samples), true, now),
{
    lemma_hold_output_covers_raw(config, debounce_run(initial_switch_state(), samples), now);
}

/// Wait-mode output is never asserted without a sustained press: whenever a
/// run from the never-polled state ends with an asserted debounced output,
/// some poll lies at least the window before the final one, and the raw
/// level was read asserted at it and at every poll after it.
pub proof fn lemma_wait_requires_sustained_press(
    config: DebounceConfig,
    samples: Seq<(u64, bool)>,
    raw_is_asserted: bool,
    now: u64,
)
    requires
        config.mode == DebounceMode::Wait,
        debounced_output(
            config,
            debounce_run(initial_switch_state(), samples),
            raw_is_asserted,
            now,
        ),
    ensures
        exists|j: int|
            0 <= j < samples.push((now, raw_is_asserted)).len() && (#[trigger] samples.push(
                (now, raw_is_asserted),
            )[j]).0 + config.window_us <= now && all_asserted_from(
                samples.push((now, raw_is_asserted)),
                j,
            ),
{
    let state = debounce_run(initial_switch_state(), samples);
    let full = samples.push((now, raw_is_asserted));
    lemma_run_tracks_history(samples);
    assert(raw_is_asserted);
    if !state.last_pressed || config.window_us == 0 {
        let j = samples.len() as int;
        assert(full[j] == (now, raw_is_asserted));
        if !state.last_pressed {
            assert(elapsed_since(now, now) >= config.window_us);
        }
        assert(full[j].0 + config.window_us <= now && all_asserted_from(full, j));
    } else {
        match state.last_debounce_time {
            Some(edge) => {
                assert(elapsed_since(now, edge) >= config.window_us);
                assert(edge + config.window_us <= now);
                let j = choose|j: int|
                    0 <= j < samples.len() && (#[trigger] samples[j]).0 == edge
                        && all_asserted_from(samples, j);
                assert(full[j].0 == edge);
                assert forall|k: int| j <= k < full.len() implies (#[trigger] full[k]).1 by {
                    if k < samples.len() {
                        assert(samples[k].1);
                    }
                }
                assert(full[j].0 + config.window_us <= now && all_asserted_from(full, j));
            },
            None => {},
        }
    }
}

} // verus!
