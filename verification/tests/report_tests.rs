use pico_sdvx_ac::hid_desc::{
    JoystickReport, LightingReport, HID_JOYSTICK_DATA_SIZE, HID_JOYSTICK_REPORT_ID,
    HID_LIGHTING_DATA_SIZE, HID_LIGHTING_REPORT_ID,
};

#[test]
fn report_ids_and_sizes() {
    assert_eq!(HID_JOYSTICK_REPORT_ID, 1);
    assert_eq!(HID_LIGHTING_REPORT_ID, 2);
    assert_eq!(HID_JOYSTICK_DATA_SIZE, 3);
    assert_eq!(HID_LIGHTING_DATA_SIZE, 7);
}

#[test]
fn default_joystick_report_is_neutral() {
    let report = JoystickReport::default();
    assert_eq!(report.buttons, 0);
    assert_eq!(report.x, 0);
    assert_eq!(report.y, 0);
}

#[test]
fn to_bytes_prepends_report_id() {
    let report = JoystickReport { buttons: 0b0101_0001, x: 64, y: 200 };
    assert_eq!(report.to_bytes(), [1, 0b0101_0001, 64, 200]);
}

#[test]
fn from_bytes_copies_lighting_payload() {
    let payload = [9u8, 0, 1, 255, 0, 3, 0];
    let report = LightingReport::from_bytes(&payload);
    assert_eq!(report.buttons, payload);
}

#[test]
fn default_lighting_report_is_dark() {
    let report = LightingReport::default();
    assert_eq!(report.buttons, [0u8; 7]);
}

#[test]
fn parse_accepts_well_formed_transfer() {
    let data = [HID_LIGHTING_REPORT_ID, 1, 0, 2, 0, 0, 0, 255];
    let parsed = LightingReport::parse(&data).unwrap();
    assert_eq!(parsed.buttons, [1, 0, 2, 0, 0, 0, 255]);
}

#[test]
fn parse_ignores_trailing_padding() {
    let data = [HID_LIGHTING_REPORT_ID, 1, 1, 1, 1, 1, 1, 1, 0, 0, 0];
    let parsed = LightingReport::parse(&data).unwrap();
    assert_eq!(parsed.buttons, [1u8; 7]);
}

#[test]
fn parse_rejects_undersized_transfer() {
    let data = [HID_LIGHTING_REPORT_ID, 1, 1, 1];
    assert!(LightingReport::parse(&data).is_none());
}

#[test]
fn parse_rejects_wrong_report_id() {
    let data = [HID_JOYSTICK_REPORT_ID, 1, 1, 1, 1, 1, 1, 1];
    assert!(LightingReport::parse(&data).is_none());
}
