use pico_sdvx_ac::debounce::{debounce_update, DebounceConfig, DebounceMode, SwitchState};

fn hold_config(window_us: u64) -> DebounceConfig {
    DebounceConfig { mode: DebounceMode::Hold, window_us }
}

fn wait_config(window_us: u64) -> DebounceConfig {
    DebounceConfig { mode: DebounceMode::Wait, window_us }
}

#[test]
fn default_switch_state_has_no_history() {
    let state = SwitchState::default();
    assert_eq!(state.last_debounce_time, None);
    assert!(!state.last_pressed);
}

#[test]
fn off_mode_passes_raw_state_through() {
    let config = DebounceConfig { mode: DebounceMode::Off, window_us: 8000 };
    let mut state = SwitchState::default();
    assert!(debounce_update(true, 0, &mut state, &config));
    assert!(!debounce_update(false, 100, &mut state, &config));
    assert!(debounce_update(true, 200, &mut state, &config));
}

#[test]
fn off_mode_still_records_edges() {
    let config = DebounceConfig { mode: DebounceMode::Off, window_us: 8000 };
    let mut state = SwitchState::default();
    debounce_update(true, 42, &mut state, &config);
    assert_eq!(state.last_debounce_time, Some(42));
    assert!(state.last_pressed);
}

#[test]
fn hold_mode_output_covers_raw_press() {
    // Whatever the history, a raw press is always reported in Hold mode.
    let config = hold_config(8000);
    let mut state = SwitchState::default();
    assert!(debounce_update(true, 0, &mut state, &config));
    let mut state = SwitchState { last_debounce_time: Some(100), last_pressed: true };
    assert!(debounce_update(true, 1_000_000, &mut state, &config));
    let mut state = SwitchState { last_debounce_time: Some(100), last_pressed: false };
    assert!(debounce_update(true, 1_000_000, &mut state, &config));
}

#[test]
fn hold_mode_window_scenario() {
    // Asserted at t=0, released at t=1000: the logical press holds through
    // the 8000 us window and drops after it.
    let config = hold_config(8000);
    let mut state = SwitchState::default();
    assert!(debounce_update(true, 0, &mut state, &config));
    assert!(debounce_update(false, 1000, &mut state, &config));
    assert!(debounce_update(false, 7999, &mut state, &config));
    assert!(!debounce_update(false, 8001, &mut state, &config));
}

#[test]
fn hold_mode_new_edge_restarts_window() {
    let config = hold_config(8000);
    let mut state = SwitchState::default();
    assert!(debounce_update(true, 0, &mut state, &config));
    assert!(debounce_update(false, 1000, &mut state, &config));
    // A second rising edge at t=6000 restarts the window.
    assert!(debounce_update(true, 6000, &mut state, &config));
    assert!(debounce_update(false, 9000, &mut state, &config));
    assert!(debounce_update(false, 14000, &mut state, &config));
    assert!(!debounce_update(false, 14001, &mut state, &config));
}

#[test]
fn wait_mode_window_scenario() {
    // Asserted continuously from t=0: reported only once the window has
    // fully elapsed.
    let config = wait_config(8000);
    let mut state = SwitchState::default();
    assert!(!debounce_update(true, 0, &mut state, &config));
    assert!(!debounce_update(true, 7999, &mut state, &config));
    assert!(debounce_update(true, 8000, &mut state, &config));
}

#[test]
fn wait_mode_requires_sustained_press() {
    // A release starts the confirmation over: only a press sustained for
    // the whole window is reported.
    let config = wait_config(8000);
    let mut state = SwitchState::default();
    assert!(!debounce_update(true, 0, &mut state, &config));
    assert!(!debounce_update(false, 4000, &mut state, &config));
    assert!(!debounce_update(true, 5000, &mut state, &config));
    assert!(!debounce_update(true, 12999, &mut state, &config));
    assert!(debounce_update(true, 13000, &mut state, &config));
}

#[test]
fn wait_mode_reports_nothing_without_edge() {
    let config = wait_config(8000);
    // A state that was pressed from the start but never saw a rising edge.
    let mut state = SwitchState { last_debounce_time: None, last_pressed: true };
    assert!(!debounce_update(true, 1_000_000, &mut state, &config));
}
