use pico_sdvx_ac::controller::{
    ControllerConfig, SDVXController, ENC_PPR, ENC_PULSE, REACTIVE_TIMEOUT_US,
    SW_DEBOUNCE_DURATION_US,
};
use pico_sdvx_ac::debounce::{DebounceConfig, DebounceMode};
use pico_sdvx_ac::hid_desc::LightingReport;
use pico_sdvx_ac::lighting::FallbackLightingMode;

fn passthrough_config() -> ControllerConfig {
    ControllerConfig {
        debounce: DebounceConfig { mode: DebounceMode::Off, window_us: 0 },
        reverse_encoders: (false, false),
        ticks_per_revolution: 1440,
        reactive_timeout_us: 3000,
        fallback_lighting_mode: FallbackLightingMode::Reflective,
    }
}

#[test]
fn reference_configuration_matches_the_build_constants() {
    let config = ControllerConfig::default();
    assert_eq!(config.debounce.mode, DebounceMode::Hold);
    assert_eq!(config.debounce.window_us, SW_DEBOUNCE_DURATION_US);
    assert_eq!(config.reverse_encoders, (true, true));
    assert_eq!(config.ticks_per_revolution, ENC_PULSE);
    assert_eq!(ENC_PULSE, ENC_PPR * 4);
    assert_eq!(config.reactive_timeout_us, REACTIVE_TIMEOUT_US);
    assert_eq!(config.fallback_lighting_mode, FallbackLightingMode::Reflective);
}

#[test]
fn initialized_controller_reports_nothing() {
    let controller = SDVXController::init(ControllerConfig::default());
    let report = controller.report();
    assert_eq!(report.buttons, 0);
    assert_eq!(report.x, 0);
    assert_eq!(report.y, 0);
}

#[test]
fn buttons_bitfield_scenario() {
    // Only the last configured switch (FX-R) asserted, no debouncing: it is
    // the least-significant bit of the buttons byte.
    let mut controller = SDVXController::init(passthrough_config());
    controller.update_inputs([false, false, false, false, false, false, true], 0);
    assert_eq!(controller.report().buttons, 0b0000_0001);
}

#[test]
fn buttons_are_composed_msb_first() {
    // The first configured switch occupies the most significant used bit.
    let mut controller = SDVXController::init(passthrough_config());
    controller.update_inputs([true, false, false, false, false, false, false], 0);
    assert_eq!(controller.report().buttons, 0b0100_0000);
    controller.update_inputs([true, true, true, true, true, true, true], 0);
    assert_eq!(controller.report().buttons, 0b0111_1111);
}

#[test]
fn encoders_feed_the_axes() {
    let mut controller = SDVXController::init(passthrough_config());
    controller.update_encoders(Some(360), Some(720));
    let report = controller.report();
    assert_eq!(report.x, 64);
    assert_eq!(report.y, 128);
}

#[test]
fn reversed_encoder_turns_the_other_way() {
    let mut config = passthrough_config();
    config.reverse_encoders = (true, false);
    let mut controller = SDVXController::init(config);
    controller.update_encoders(Some(10), Some(10));
    let report = controller.report();
    // 1430/1440 and 10/1440 of a revolution.
    assert_eq!(report.x, 254);
    assert_eq!(report.y, 1);
}

#[test]
fn full_cycle_updates_report_and_lights() {
    let mut controller = SDVXController::init(passthrough_config());
    let leds = controller.update(
        [true, true, false, false, false, false, false],
        Some(360),
        None,
        0,
    );
    let report = controller.report();
    assert_eq!(report.buttons, 0b0110_0000);
    assert_eq!(report.x, 64);
    assert_eq!(report.y, 0);
    // Reflective fallback: each pressed button lights its own lamp.
    assert_eq!(leds, [true, true, false, false, false, false, false]);
}

#[test]
fn delivered_command_is_consumed_by_the_next_cycle() {
    let mut controller = SDVXController::init(passthrough_config());
    let command = LightingReport { buttons: [0, 0, 1, 0, 0, 0, 0] };
    controller.deliver_lighting_report(command);
    let leds = controller.update([false; 7], None, None, 0);
    assert_eq!(leds, [false, false, true, false, false, false, false]);
    // The mailbox is a single slot and is drained by the cycle.
    let leds = controller.update([false; 7], None, None, 4000);
    assert_eq!(leds, [false; 7]);
}

#[test]
fn raw_lighting_data_is_validated() {
    let mut controller = SDVXController::init(passthrough_config());
    // A malformed transfer is dropped silently.
    controller.deliver_lighting_data(&[2, 1, 1]);
    let leds = controller.update([false; 7], None, None, 0);
    assert_eq!(leds, [false; 7]);
    // A well-formed transfer reaches the lighting controller.
    controller.deliver_lighting_data(&[2, 1, 0, 0, 0, 0, 0, 1]);
    let leds = controller.update([false; 7], None, None, 10);
    assert_eq!(leds, [true, false, false, false, false, false, true]);
}

#[test]
fn lighting_uses_the_buttons_of_the_same_cycle() {
    // The switches are debounced before the lighting controller reads the
    // buttons byte, so the LEDs never trail the report by a cycle.
    let mut controller = SDVXController::init(passthrough_config());
    let leds = controller.update([false, false, false, false, false, false, true], None, None, 0);
    assert_eq!(controller.report().buttons, 0b0000_0001);
    assert_eq!(leds, [false, false, false, false, false, false, true]);
}

#[test]
fn hold_debounce_shapes_the_report() {
    let mut config = passthrough_config();
    config.debounce = DebounceConfig { mode: DebounceMode::Hold, window_us: 8000 };
    let mut controller = SDVXController::init(config);
    controller.update_inputs([true, false, false, false, false, false, false], 0);
    assert_eq!(controller.report().buttons, 0b0100_0000);
    // Released, but the window keeps the logical press alive.
    controller.update_inputs([false; 7], 1000);
    assert_eq!(controller.report().buttons, 0b0100_0000);
    controller.update_inputs([false; 7], 8001);
    assert_eq!(controller.report().buttons, 0);
}
