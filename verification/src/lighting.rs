use vstd::prelude::*;

use crate::clock::{elapsed_micros, elapsed_since};
use crate::hid_desc::LightingReport;

verus! {

/// Specifies the fallback lighting to use when the host has not reported
/// lighting data within the reactive timeout.
#[derive(Clone, Copy, Debug, PartialEq, Eq, Structural)]
pub enum FallbackLightingMode {
    /// No fallback lighting is used: the LEDs stay dark.
    Off,
    /// An "idle" lighting mode: every LED is lit.
    Idle,
    /// The lighting reflects the buttons currently pressed.
    /// Recommended when the host software does not report lighting.
    Reflective,
}

/// Whether bit `i` of the button byte reports a press.
pub open spec fn button_bit(buttons: u8, i: int) -> bool {
    (buttons >> (i as u8)) & 1 == 1
}

/// Reactive/fallback controller for the per-button illumination.
///
/// The controller is host-driven while the host keeps sending lighting
/// commands, and falls back to a local policy once the host has stayed
/// silent past the reactive timeout.
#[derive(Clone, Copy, Debug, PartialEq, Eq)]
pub struct LightingController {
    /// Fallback policy applied while the host is silent.
    pub fallback_mode: FallbackLightingMode,
    /// How long, in microseconds, host lighting data stays authoritative.
    pub reactive_timeout_us: u64,
    /// When the host last delivered a lighting command, if it ever did.
    pub last_host_report_time: Option<u64>,
    /// The last lighting command received; dark until one arrives.
    pub last_command: LightingReport,
}

impl LightingController {
    /// A controller that has never received a host command: it starts in
    /// the fallback state, with every remembered LED level dark.
    pub fn new(fallback_mode: FallbackLightingMode, reactive_timeout_us: u64) -> (controller:
        LightingController)
        ensures
            controller.fallback_mode == fallback_mode,
            controller.reactive_timeout_us == reactive_timeout_us,
            controller.last_host_report_time is None,
            controller.last_command.buttons@ =~= seq![0u8, 0u8, 0u8, 0u8, 0u8, 0u8, 0u8],
    {
        LightingController {
            fallback_mode,
            reactive_timeout_us,
            last_host_report_time: None,
            last_command: LightingReport::default(),
        }
    }

    /// Whether host-supplied lighting data is authoritative at `now`: some
    /// command has arrived, and the latest one is no older than the
    /// reactive timeout.
    pub open spec fn is_host_driven(self, now: u64) -> bool {
        match self.last_host_report_time {
            Some(last) => elapsed_since(now, last) <= self.reactive_timeout_us,
            None => false,
        }
    }

    /// The level asked of the LED at position `i` for one cycle: the host's
    /// byte while host-driven, else what the fallback policy dictates. In
    /// both modes position `i` is button `i`'s lamp: the reflective
    /// fallback reads the press of switch `i` out of the MSB-first buttons
    /// byte, where it sits in bit `6 - i`.
    pub open spec fn led_output(self, buttons: u8, now: u64, i: int) -> bool {
        if self.is_host_driven(now) {
            self.last_command.buttons@[i] != 0
        } else {
            match self.fallback_mode {
                FallbackLightingMode::Off => false,
                FallbackLightingMode::Idle => true,
                FallbackLightingMode::Reflective => button_bit(buttons, 6 - i),
            }
        }
    }

    /// Runs one lighting cycle: takes in a newly received host command, if
    /// any (which always refreshes the host-report clock), decides between
    /// host-driven and fallback lighting, and recomputes every LED output.
    pub fn update(&mut self, buttons: u8, now: u64, command: Option<LightingReport>) -> (leds:
        [bool; 7])
        ensures
            final(self).fallback_mode == old(self).fallback_mode,
            final(self).reactive_timeout_us == old(self).reactive_timeout_us,
            final(self).last_host_report_time == match command {
                Some(_) => Some(now),
                None => old(self).last_host_report_time,
            },
            final(self).last_command == match command {
                Some(received) => received,
                None => old(self).last_command,
            },
            forall|i: int| 0 <= i < 7 ==> leds@[i] == final(self).led_output(buttons, now, i),
    {
        if let Some(received) = command {
            self.last_command = received;
            self.last_host_report_time = Some(now);
        }

        let host_driven: bool = match self.last_host_report_time {
            Some(last) => elapsed_micros(now, last) <= self.reactive_timeout_us,
            None => false,
        };

        let mut leds = [false, false, false, false, false, false, false];
        let mut i: usize = 0;
        while i < 7
            invariant
                i <= 7,
                leds@.len() == 7,
                host_driven == self.is_host_driven(now),
                forall|j: int| 0 <= j < i ==> leds@[j] == self.led_output(buttons, now, j),
            decreases 7 - i,
        {
            let lit: bool = if host_driven {
                self.last_command.buttons[i] != 0
            } else {
                match self.fallback_mode {
                    FallbackLightingMode::Off => false,
                    FallbackLightingMode::Idle => true,
                    FallbackLightingMode::Reflective => ((buttons >> ((6 - i) as u8)) & 1) == 1,
                }
            };
            leds[i] = lit;
            i = i + 1;
        }
        leds
    }
}

/// While no lighting command has ever been received, the controller is in
/// the fallback state at every instant, from time zero on.
pub proof fn lemma_no_command_means_fallback(controller: LightingController, now: u64)
    requires
        controller.last_host_report_time is None,
    ensures
        !controller.is_host_driven(now),
{
}

/// Once a command has arrived, the controller is host-driven immediately,
/// and stays host-driven exactly until the reactive timeout elapses with no
/// further command.
pub proof fn lemma_command_holds_until_timeout(
    controller: LightingController,
    received: u64,
    later: u64,
)
    requires
        controller.last_host_report_time == Some(received),
        received <= later,
    ensures
        controller.is_host_driven(received),
        controller.is_host_driven(later) <==> later - received
            <= controller.reactive_timeout_us,
{
}

} // verus!
