use vstd::prelude::*;

use vstd::arithmetic::power2::{lemma2_to64, lemma_pow2_strictly_increases, lemma_pow2_unfold, pow2};

use crate::debounce::{
    debounce_update, debounced_output, debounced_state, DebounceConfig, DebounceMode, SwitchState,
};
use crate::encoder::{
    encoder_in_range, encoder_step, parse_encoder, scaled_position, EncoderState,
};
use crate::hid_desc::{JoystickReport, LightingReport, HID_LIGHTING_REPORT_ID};
use crate::lighting::{button_bit, FallbackLightingMode, LightingController};

verus! {

/// The amount of LEDs in the controller.
pub const LED_GPIO_SIZE: usize = 7;

/// The amount of micro switches in the controller.
pub const SW_GPIO_SIZE: usize = 7;

/// The amount of encoders on the controller.
pub const ENC_GPIO_SIZE: usize = 2;

/// The resolution of the encoders, in pulses per revolution.
pub const ENC_PPR: i32 = 360;

/// The number of counted ticks in a full revolution: quadrature decoding
/// yields four edges per pulse.
pub const ENC_PULSE: i32 = ENC_PPR * 4;

/// The duration (in microseconds) to wait before using a fallback lighting
/// mode.
pub const REACTIVE_TIMEOUT_US: u64 = 3000;

/// The duration (in microseconds) of the micro-switch debounce window.
pub const SW_DEBOUNCE_DURATION_US: u64 = 8000;

/// The interval (in milliseconds) at which the controller reports inputs to
/// the host.
pub const HID_JOYSTICK_POLL_RATE_MS: u8 = 2;

/// The interval (in milliseconds) at which the controller polls the lights
/// from the host.
pub const HID_LIGHTING_POLL_RATE_MS: u8 = 60;

/// Configuration consumed at startup, before the poll loop begins.
#[derive(Clone, Copy, Debug, PartialEq, Eq)]
pub struct ControllerConfig {
    /// Debounce policy for the micro switches.
    pub debounce: DebounceConfig,
    /// Whether to reverse the direction of each encoder (left, right).
    pub reverse_encoders: (bool, bool),
    /// Counted ticks per full revolution of an encoder.
    pub ticks_per_revolution: i32,
    /// How long host lighting data stays authoritative, in microseconds.
    pub reactive_timeout_us: u64,
    /// Fallback mode used when the host lighting has not reported data.
    pub fallback_lighting_mode: FallbackLightingMode,
}

impl ControllerConfig {
    /// A configuration the controller can run with: an encoder revolution
    /// spans at least one tick.
    pub open spec fn wf(self) -> bool {
        1 <= self.ticks_per_revolution
    }
}

impl Default for ControllerConfig {
    /// The reference configuration: eager debouncing over an 8 ms window,
    /// both encoders reversed at 1440 ticks per revolution, and reflective
    /// fallback lighting after 3 ms of host silence.
    fn default() -> (config: ControllerConfig)
        ensures
            config == (ControllerConfig {
                debounce: DebounceConfig {
                    mode: DebounceMode::Hold,
                    window_us: SW_DEBOUNCE_DURATION_US,
                },
                reverse_encoders: (true, true),
                ticks_per_revolution: ENC_PULSE,
                reactive_timeout_us: REACTIVE_TIMEOUT_US,
                fallback_lighting_mode: FallbackLightingMode::Reflective,
            }),
            config.wf(),
    {
        ControllerConfig {
            debounce: DebounceConfig { mode: DebounceMode::Hold, window_us: SW_DEBOUNCE_DURATION_US },
            reverse_encoders: (true, true),
            ticks_per_revolution: ENC_PULSE,
            reactive_timeout_us: REACTIVE_TIMEOUT_US,
            fallback_lighting_mode: FallbackLightingMode::Reflective,
        }
    }
}

/// The value of the buttons byte for a sequence of debounced presses,
/// composed MSB-first: the first switch occupies the most significant of
/// the used bits, the last switch the least significant.
pub open spec fn buttons_value(pressed: Seq<bool>) -> int
    decreases pressed.len(),
{
    if pressed.len() == 0 {
        0
    } else {
        2 * buttons_value(pressed.drop_last()) + (if pressed.last() {
            1int
        } else {
            0int
        })
    }
}

/// The buttons byte of `n` switches stays below `2^n`.
pub proof fn lemma_buttons_value_bound(pressed: Seq<bool>)
    ensures
        0 <= buttons_value(pressed) < pow2(pressed.len()),
    decreases pressed.len(),
{
    if pressed.len() == 0 {
        lemma2_to64();
    } else {
        lemma_buttons_value_bound(pressed.drop_last());
        lemma_pow2_unfold(pressed.len());
    }
}

/// The buttons byte is MSB-first: bit `i` of the byte reports the press of
/// switch `n - 1 - i`, so the first configured switch occupies the most
/// significant used bit and the last configured switch bit zero. This is
/// the bit the lighting controller's reflective fallback reads back.
pub proof fn lemma_buttons_value_bit(pressed: Seq<bool>, i: int)
    requires
        pressed.len() <= 8,
        0 <= i < pressed.len(),
    ensures
        button_bit(buttons_value(pressed) as u8, i) == pressed[pressed.len() - 1 - i],
    decreases pressed.len(),
{
    lemma_buttons_value_bound(pressed);
    lemma_buttons_value_bound(pressed.drop_last());
    if pressed.len() < 8 {
        lemma_pow2_strictly_increases(pressed.len(), 8);
        lemma_pow2_strictly_increases((pressed.len() - 1) as nat, 7);
    }
    lemma2_to64();
    let full = buttons_value(pressed) as u8;
    let half = buttons_value(pressed.drop_last()) as u8;
    let last: u8 = if pressed.last() {
        1
    } else {
        0
    };
    assert(full == 2 * half + last);
    let shift = i as u8;
    if i == 0 {
        assert((((full) >> shift) & 1 == 1) == (last == 1)) by (bit_vector)
            requires
                full == 2 * half + last,
                half < 128,
                last <= 1,
                shift == 0,
        ;
    } else {
        let shift_less = (i - 1) as u8;
        assert((full >> shift) & 1 == (half >> shift_less) & 1) by (bit_vector)
            requires
                full == 2 * half + last,
                half < 128,
                last <= 1,
                shift == shift_less + 1,
                shift < 8,
        ;
        lemma_buttons_value_bit(pressed.drop_last(), i - 1);
    }
}

/// While the host is silent under the reflective fallback, each LED follows
/// its own button: the LED at position `i` is lit exactly when the switch
/// at position `i` was debounced as pressed when the buttons byte was
/// composed.
pub proof fn lemma_reflective_leds_follow_switches(
    lighting: LightingController,
    pressed: Seq<bool>,
    now: u64,
    i: int,
)
    requires
        !lighting.is_host_driven(now),
        lighting.fallback_mode == FallbackLightingMode::Reflective,
        pressed.len() == 7,
        0 <= i < 7,
    ensures
        lighting.led_output(buttons_value(pressed) as u8, now, i) == pressed[i],
{
    lemma_buttons_value_bit(pressed, 6 - i);
}

/// The debounced output of every switch for one poll, in configured order.
pub open spec fn debounced_outputs(
    config: DebounceConfig,
    switches: Seq<SwitchState>,
    raw: Seq<bool>,
    now: u64,
) -> Seq<bool> {
    Seq::new(switches.len(), |i: int| debounced_output(config, switches[i], raw[i], now))
}

/// Orchestrator for the whole controller: owns the per-switch and
/// per-encoder state, the latest input report, and the lighting controller,
/// and runs one complete poll cycle at a time over plain input values.
///
/// Raw pin access, the hardware tick sequencer, and the transport are
/// collaborators: they hand this type switch levels, counter readings,
/// clock readings, and inbound lighting bytes, and carry its report bytes
/// and LED levels back out.
pub struct SDVXController {
    /// Startup configuration, never mutated concurrently with a cycle.
    pub config: ControllerConfig,
    /// Debounce state of the seven micro switches, in configured order.
    pub switches: [SwitchState; 7],
    /// Tracking state of the two encoders (left, right).
    pub encoders: [EncoderState; 2],
    /// The latest input report snapshot.
    pub joystick: JoystickReport,
    /// The reactive/fallback lighting controller.
    pub lighting: LightingController,
    /// Single-slot mailbox for the inbound lighting command, filled by the
    /// transport's interrupt context and drained by the poll cycle.
    pub pending_command: Option<LightingReport>,
}

impl SDVXController {
    /// A controller that can run a poll cycle: the configuration is sound,
    /// both encoder positions lie within one revolution, and the lighting
    /// controller follows the configured policy.
    pub open spec fn wf(self) -> bool {
        &&& self.config.wf()
        &&& encoder_in_range(self.encoders@[0], self.config.ticks_per_revolution)
        &&& encoder_in_range(self.encoders@[1], self.config.ticks_per_revolution)
        &&& self.lighting.fallback_mode == self.config.fallback_lighting_mode
        &&& self.lighting.reactive_timeout_us == self.config.reactive_timeout_us
    }

    /// Initializes the controller state: no switch has been seen asserted,
    /// both encoders rest at zero, the report is empty, and no lighting
    /// command has ever been received.
    pub fn init(config: ControllerConfig) -> (controller: SDVXController)
        requires
            config.wf(),
        ensures
            controller.wf(),
            controller.config == config,
            forall|i: int|
                0 <= i < 7 ==> controller.switches@[i] == (SwitchState {
                    last_debounce_time: None,
                    last_pressed: false,
                }),
            forall|i: int|
                0 <= i < 2 ==> controller.encoders@[i] == (EncoderState {
                    prev_value: 0,
                    curr_value: 0,
                }),
            controller.joystick == (JoystickReport { buttons: 0, x: 0, y: 0 }),
            controller.lighting.last_host_report_time is None,
            controller.pending_command is None,
    {
        SDVXController {
            switches: [
                SwitchState::default(),
                SwitchState::default(),
                SwitchState::default(),
                SwitchState::default(),
                SwitchState::default(),
                SwitchState::default(),
                SwitchState::default(),
            ],
            encoders: [EncoderState::default(), EncoderState::default()],
            joystick: JoystickReport::default(),
            lighting: LightingController::new(
                config.fallback_lighting_mode,
                config.reactive_timeout_us,
            ),
            pending_command: None,
            config,
        }
    }

    /// Updates the HID report with the current state of the buttons: runs
    /// one debounce step on every switch against the shared policy and
    /// composes the debounced presses into the buttons byte, MSB-first.
    pub fn update_inputs(&mut self, raw_switches: [bool; 7], now: u64)
        ensures
            final(self).config == old(self).config,
            final(self).encoders == old(self).encoders,
            final(self).lighting == old(self).lighting,
            final(self).pending_command == old(self).pending_command,
            final(self).joystick.x == old(self).joystick.x,
            final(self).joystick.y == old(self).joystick.y,
            forall|i: int|
                0 <= i < 7 ==> final(self).switches@[i] == debounced_state(
                    old(self).switches@[i],
                    raw_switches@[i],
                    now,
                ),
            final(self).joystick.buttons == buttons_value(
                debounced_outputs(
                    old(self).config.debounce,
                    old(self).switches@,
                    raw_switches@,
                    now,
                ),
            ),
    {
        let ghost outputs = debounced_outputs(
            old(self).config.debounce,
            old(self).switches@,
            raw_switches@,
            now,
        );
        let mut report: u8 = 0;
        let mut i: usize = 0;
        while i < 7
            invariant
                i <= 7,
                self.config == old(self).config,
                self.encoders == old(self).encoders,
                self.lighting == old(self).lighting,
                self.pending_command == old(self).pending_command,
                self.joystick == old(self).joystick,
                outputs == debounced_outputs(
                    old(self).config.debounce,
                    old(self).switches@,
                    raw_switches@,
                    now,
                ),
                forall|j: int|
                    0 <= j < i ==> self.switches@[j] == debounced_state(
                        old(self).switches@[j],
                        raw_switches@[j],
                        now,
                    ),
                forall|j: int| i <= j < 7 ==> self.switches@[j] == old(self).switches@[j],
                report == buttons_value(outputs.take(i as int)),
            decreases 7 - i,
        {
            let raw = raw_switches[i];
            let mut switch_state = self.switches[i];
            let pressed = debounce_update(raw, now, &mut switch_state, &self.config.debounce);
            self.switches[i] = switch_state;

            proof {
                lemma_buttons_value_bound(outputs.take(i as int));
                lemma_pow2_strictly_increases(i as nat, 7);
                lemma2_to64();
                assert(outputs.take(i + 1).drop_last() =~= outputs.take(i as int));
                assert(outputs.take(i + 1).last() == pressed);
            }
            report = report * 2 + (if pressed {
                1
            } else {
                0
            });
            i = i + 1;
        }
        proof {
            assert(outputs.take(7) =~= outputs);
        }
        self.joystick.buttons = report;
    }

    /// Updates the HID report with the current state of the encoders. Each
    /// encoder consumes its latest raw counter reading, if the sequencer
    /// produced one, and reports its position on one axis.
    pub fn update_encoders(&mut self, left_tick: Option<u32>, right_tick: Option<u32>)
        requires
            old(self).wf(),
        ensures
            final(self).wf(),
            final(self).config == old(self).config,
            final(self).switches == old(self).switches,
            final(self).lighting == old(self).lighting,
            final(self).pending_command == old(self).pending_command,
            final(self).joystick.buttons == old(self).joystick.buttons,
            final(self).encoders@[0] == match left_tick {
                Some(value) => encoder_step(
                    old(self).encoders@[0],
                    value,
                    old(self).config.ticks_per_revolution as int,
                    old(self).config.reverse_encoders.0,
                ),
                None => old(self).encoders@[0],
            },
            final(self).encoders@[1] == match right_tick {
                Some(value) => encoder_step(
                    old(self).encoders@[1],
                    value,
                    old(self).config.ticks_per_revolution as int,
                    old(self).config.reverse_encoders.1,
                ),
                None => old(self).encoders@[1],
            },
            final(self).joystick.x == scaled_position(
                final(self).encoders@[0].curr_value as int,
                old(self).config.ticks_per_revolution as int,
            ),
            final(self).joystick.y == scaled_position(
                final(self).encoders@[1].curr_value as int,
                old(self).config.ticks_per_revolution as int,
            ),
    {
        let mut left_state = self.encoders[0];
        let x = parse_encoder(
            left_tick,
            &mut left_state,
            self.config.ticks_per_revolution,
            self.config.reverse_encoders.0,
        );
        self.encoders[0] = left_state;
        self.joystick.x = x;

        let mut right_state = self.encoders[1];
        let y = parse_encoder(
            right_tick,
            &mut right_state,
            self.config.ticks_per_revolution,
            self.config.reverse_encoders.1,
        );
        self.encoders[1] = right_state;
        self.joystick.y = y;
    }

    /// Handles the arcade-button lighting for one cycle: feeds the lighting
    /// controller the current buttons byte together with a newly received
    /// host command, if any, and returns the level to drive each LED with.
    pub fn update_lights(&mut self, report: Option<LightingReport>, now: u64) -> (leds: [bool; 7])
        ensures
            final(self).config == old(self).config,
            final(self).switches == old(self).switches,
            final(self).encoders == old(self).encoders,
            final(self).joystick == old(self).joystick,
            final(self).pending_command == old(self).pending_command,
            final(self).lighting.fallback_mode == old(self).lighting.fallback_mode,
            final(self).lighting.reactive_timeout_us == old(self).lighting.reactive_timeout_us,
            final(self).lighting.last_host_report_time == match report {
                Some(_) => Some(now),
                None => old(self).lighting.last_host_report_time,
            },
            final(self).lighting.last_command == match report {
                Some(received) => received,
                None => old(self).lighting.last_command,
            },
            forall|i: int|
                0 <= i < 7 ==> leds@[i] == final(self).lighting.led_output(
                    old(self).joystick.buttons,
                    now,
                    i,
                ),
    {
        let buttons = self.joystick.buttons;
        self.lighting.update(buttons, now, report)
    }

    /// Transport-side entry point: stores one inbound lighting command in
    /// the single-slot mailbox, replacing any command not yet consumed. The
    /// caller keeps its critical section around this store.
    pub fn deliver_lighting_report(&mut self, report: LightingReport)
        ensures
            final(self).config == old(self).config,
            final(self).switches == old(self).switches,
            final(self).encoders == old(self).encoders,
            final(self).joystick == old(self).joystick,
            final(self).lighting == old(self).lighting,
            final(self).pending_command == Some(report),
    {
        self.pending_command = Some(report);
    }

    /// Transport-side entry point over raw bytes: validates one lighting
    /// transfer and stores the command it carries in the mailbox; a
    /// malformed or undersized transfer is dropped silently and the mailbox
    /// keeps its prior content.
    pub fn deliver_lighting_data(&mut self, data: &[u8])
        ensures
            final(self).config == old(self).config,
            final(self).switches == old(self).switches,
            final(self).encoders == old(self).encoders,
            final(self).joystick == old(self).joystick,
            final(self).lighting == old(self).lighting,
            data@.len() >= 8 && data@[0] == HID_LIGHTING_REPORT_ID ==> {
                &&& final(self).pending_command matches Some(command)
                &&& command.buttons@ == data@.subrange(1, 8)
            },
            !(data@.len() >= 8 && data@[0] == HID_LIGHTING_REPORT_ID)
                ==> final(self).pending_command == old(self).pending_command,
    {
        if let Some(report) = LightingReport::parse(data) {
            self.pending_command = Some(report);
        }
    }

    /// Runs one complete poll cycle over plain input values: debounces
    /// every switch and composes the buttons byte before anything reads it,
    /// tracks both encoders, snapshots the input report, drains the
    /// lighting mailbox, and recomputes every LED output from the fresh
    /// buttons byte.
    pub fn update(
        &mut self,
        raw_switches: [bool; 7],
        left_tick: Option<u32>,
        right_tick: Option<u32>,
        now: u64,
    ) -> (leds: [bool; 7])
        requires
            old(self).wf(),
        ensures
            final(self).wf(),
            final(self).config == old(self).config,
            forall|i: int|
                0 <= i < 7 ==> final(self).switches@[i] == debounced_state(
                    old(self).switches@[i],
                    raw_switches@[i],
                    now,
                ),
            final(self).joystick.buttons == buttons_value(
                debounced_outputs(
                    old(self).config.debounce,
                    old(self).switches@,
                    raw_switches@,
                    now,
                ),
            ),
            final(self).encoders@[0] == match left_tick {
                Some(value) => encoder_step(
                    old(self).encoders@[0],
                    value,
                    old(self).config.ticks_per_revolution as int,
                    old(self).config.reverse_encoders.0,
                ),
                None => old(self).encoders@[0],
            },
            final(self).encoders@[1] == match right_tick {
                Some(value) => encoder_step(
                    old(self).encoders@[1],
                    value,
                    old(self).config.ticks_per_revolution as int,
                    old(self).config.reverse_encoders.1,
                ),
                None => old(self).encoders@[1],
            },
            final(self).joystick.x == scaled_position(
                final(self).encoders@[0].curr_value as int,
                old(self).config.ticks_per_revolution as int,
            ),
            final(self).joystick.y == scaled_position(
                final(self).encoders@[1].curr_value as int,
                old(self).config.ticks_per_revolution as int,
            ),
            final(self).pending_command is None,
            final(self).lighting.last_host_report_time == match old(self).pending_command {
                Some(_) => Some(now),
                None => old(self).lighting.last_host_report_time,
            },
            final(self).lighting.last_command == match old(self).pending_command {
                Some(received) => received,
                None => old(self).lighting.last_command,
            },
            forall|i: int|
                0 <= i < 7 ==> leds@[i] == final(self).lighting.led_output(
                    final(self).joystick.buttons,
                    now,
                    i,
                ),
    {
        self.update_inputs(raw_switches, now);
        self.update_encoders(left_tick, right_tick);
        let command = self.pending_command;
        self.pending_command = None;
        self.update_lights(command, now)
    }

    /// Generates a new gamepad report based on the current state of the
    /// controller: a snapshot of the latest input report.
    pub fn report(&self) -> (report: JoystickReport)
        ensures
            report == self.joystick,
    {
        self.joystick
    }
}

} // verus!
