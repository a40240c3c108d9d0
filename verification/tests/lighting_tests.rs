use pico_sdvx_ac::hid_desc::LightingReport;
use pico_sdvx_ac::lighting::{FallbackLightingMode, LightingController};

#[test]
fn never_commanded_controller_starts_in_fallback() {
    // With no command ever received, the fallback policy rules from time
    // zero on.
    let mut controller = LightingController::new(FallbackLightingMode::Idle, 3000);
    assert_eq!(controller.last_host_report_time, None);
    let leds = controller.update(0, 0, None);
    assert_eq!(leds, [true; 7]);
}

#[test]
fn command_drives_lighting_immediately() {
    let mut controller = LightingController::new(FallbackLightingMode::Idle, 3000);
    let command = LightingReport { buttons: [1, 0, 1, 0, 0, 0, 1] };
    let leds = controller.update(0, 10, Some(command));
    assert_eq!(leds, [true, false, true, false, false, false, true]);
    assert_eq!(controller.last_host_report_time, Some(10));
}

#[test]
fn host_data_stays_authoritative_until_timeout() {
    let mut controller = LightingController::new(FallbackLightingMode::Idle, 3000);
    let command = LightingReport { buttons: [1, 0, 0, 0, 0, 0, 0] };
    controller.update(0, 0, Some(command));
    // Within the timeout the last command still rules.
    let leds = controller.update(0, 3000, None);
    assert_eq!(leds, [true, false, false, false, false, false, false]);
    // Past the timeout the fallback policy takes over.
    let leds = controller.update(0, 3001, None);
    assert_eq!(leds, [true; 7]);
}

#[test]
fn new_command_refreshes_the_timeout() {
    let mut controller = LightingController::new(FallbackLightingMode::Off, 3000);
    let command = LightingReport { buttons: [0, 1, 0, 0, 0, 0, 0] };
    controller.update(0, 0, Some(command));
    controller.update(0, 2500, Some(command));
    let leds = controller.update(0, 5000, None);
    assert_eq!(leds, [false, true, false, false, false, false, false]);
}

#[test]
fn reflective_fallback_scenario() {
    // Buttons 0b0000_0011: the byte is MSB-first, so its two
    // least-significant bits belong to the last two configured buttons, and
    // exactly their lamps light up.
    let mut controller = LightingController::new(FallbackLightingMode::Reflective, 3000);
    let leds = controller.update(0b0000_0011, 0, None);
    assert_eq!(leds, [false, false, false, false, false, true, true]);
}

#[test]
fn off_fallback_keeps_leds_dark() {
    let mut controller = LightingController::new(FallbackLightingMode::Off, 3000);
    let leds = controller.update(0b0111_1111, 0, None);
    assert_eq!(leds, [false; 7]);
}

#[test]
fn any_nonzero_intensity_lights_the_led() {
    let mut controller = LightingController::new(FallbackLightingMode::Off, 3000);
    let command = LightingReport { buttons: [255, 1, 0, 17, 0, 0, 2] };
    let leds = controller.update(0, 0, Some(command));
    assert_eq!(leds, [true, true, false, true, false, false, true]);
}
