use opennow_streamer::input::linux::{
    backend_started, backend_stopped, begin_start, clear_raw_input_sender, finish_stop,
    flush_coalesced_events, flush_pending_mouse_events, get_active_backend_name,
    get_coalesced_event_count, get_local_cursor_area, get_local_cursor_position,
    get_raw_mouse_delta, is_raw_input_active, pause_raw_input, process_mouse_delta,
    process_relative_axis, process_scroll, request_stop, reset_coalescing, resume_raw_input,
    set_local_cursor_dimensions, set_raw_input_sender, update_raw_input_center, valuator_slots,
    InputBackend, RawInputState, RelativeAxis, StartAction,
};
use opennow_streamer::input::{truncate_to_i16, wrapping_sum, InputEvent, MOUSE_COALESCE_INTERVAL_US};

fn running() -> RawInputState {
    let mut state = RawInputState::new();
    assert_eq!(begin_start(&mut state), StartAction::StartBackend);
    backend_started(&mut state, InputBackend::Evdev);
    set_raw_input_sender(&mut state);
    state
}

#[test]
fn new_state_is_idle_with_a_centred_cursor() {
    let state = RawInputState::new();
    assert!(!state.is_registered());
    assert!(!is_raw_input_active(&state));
    assert!(!state.is_stop_requested());
    assert_eq!(get_local_cursor_position(&state), (960, 540));
    assert_eq!(get_local_cursor_area(&state), (960, 540, 1920, 1080));
    assert_eq!(get_coalesced_event_count(&state), 0);
    assert_eq!(get_active_backend_name(&state), "none");
    assert_eq!(MOUSE_COALESCE_INTERVAL_US, 2000);
}

#[test]
fn backend_names() {
    let mut state = RawInputState::new();
    backend_started(&mut state, InputBackend::Evdev);
    assert_eq!(get_active_backend_name(&state), "evdev");
    backend_started(&mut state, InputBackend::X11);
    assert_eq!(get_active_backend_name(&state), "X11 XInput2");
    finish_stop(&mut state);
    assert_eq!(get_active_backend_name(&state), "none");
}

#[test]
fn truncation_keeps_the_low_16_bits() {
    assert_eq!(truncate_to_i16(0), 0);
    assert_eq!(truncate_to_i16(32767), 32767);
    assert_eq!(truncate_to_i16(32768), -32768);
    assert_eq!(truncate_to_i16(65535), -1);
    assert_eq!(truncate_to_i16(65536), 0);
    assert_eq!(truncate_to_i16(-1), -1);
    assert_eq!(truncate_to_i16(-32769), 32767);
    assert_eq!(truncate_to_i16(100_000), 100_000i64 as i16);
    assert_eq!(truncate_to_i16(i64::MIN), 0);
    assert_eq!(wrapping_sum(1, 2), 3);
    assert_eq!(wrapping_sum(i32::MAX, 1), i32::MIN);
    assert_eq!(wrapping_sum(i32::MIN, -1), i32::MAX);
    assert_eq!(wrapping_sum(i32::MIN, i32::MIN), 0);
}

#[test]
fn deltas_are_coalesced_until_the_interval_has_passed() {
    let mut state = running();
    // 1000 microseconds since the last send at 0: too early.
    assert_eq!(process_mouse_delta(&mut state, 5, -3, 1000, 11), None);
    assert_eq!(process_mouse_delta(&mut state, 2, 1, 1999, 12), None);
    // At 2000 the batch goes out.
    assert_eq!(
        process_mouse_delta(&mut state, 1, 1, 2000, 13),
        Some(InputEvent::MouseMove { dx: 8, dy: -1, timestamp_us: 13 })
    );
    assert_eq!(get_coalesced_event_count(&state), 3);
    // The next batch is due 2000 microseconds after that.
    assert_eq!(process_mouse_delta(&mut state, 4, 0, 3999, 14), None);
    assert_eq!(
        process_mouse_delta(&mut state, 0, 6, 4000, 15),
        Some(InputEvent::MouseMove { dx: 4, dy: 6, timestamp_us: 15 })
    );
    // Every delta also counts for the accumulated movement.
    assert_eq!(get_raw_mouse_delta(&mut state), (12, 5));
    assert_eq!(get_raw_mouse_delta(&mut state), (0, 0));
}

#[test]
fn a_clock_that_runs_backwards_sends_nothing() {
    let mut state = running();
    process_mouse_delta(&mut state, 1, 0, 10_000, 1);
    assert_eq!(process_mouse_delta(&mut state, 1, 0, 5_000, 2), None);
}

#[test]
fn no_movement_does_nothing() {
    let mut state = running();
    assert_eq!(process_mouse_delta(&mut state, 0, 0, 1_000_000, 1), None);
    assert_eq!(get_coalesced_event_count(&state), 0);
    assert_eq!(get_local_cursor_position(&state), (960, 540));
}

#[test]
fn batch_that_cancels_out_sends_nothing() {
    let mut state = running();
    process_mouse_delta(&mut state, 5, 5, 100, 1);
    assert_eq!(process_mouse_delta(&mut state, -5, -5, 5000, 2), None);
    // Nothing was sent, so the batch is due at once for the next delta.
    assert_eq!(
        process_mouse_delta(&mut state, 1, 0, 5001, 3),
        Some(InputEvent::MouseMove { dx: 1, dy: 0, timestamp_us: 3 })
    );
}

#[test]
fn without_a_sender_the_batch_is_dropped() {
    let mut state = running();
    clear_raw_input_sender(&mut state);
    assert_eq!(process_mouse_delta(&mut state, 5, 5, 5000, 1), None);
    set_raw_input_sender(&mut state);
    assert_eq!(flush_coalesced_events(&mut state, 2, 5001), None);
}

#[test]
fn flush_sends_what_is_pending() {
    let mut state = running();
    process_mouse_delta(&mut state, 7, 9, 100, 1);
    assert_eq!(
        flush_pending_mouse_events(&mut state, 50, 200),
        Some(InputEvent::MouseMove { dx: 7, dy: 9, timestamp_us: 50 })
    );
    assert_eq!(flush_pending_mouse_events(&mut state, 51, 300), None);
    // The flush at 200 counts as the last send.
    assert_eq!(process_mouse_delta(&mut state, 1, 1, 2199, 2), None);
    assert!(process_mouse_delta(&mut state, 1, 1, 2200, 3).is_some());
}

#[test]
fn large_batches_keep_their_low_16_bits() {
    let mut state = running();
    process_mouse_delta(&mut state, 40_000, -40_000, 100, 1);
    assert_eq!(
        flush_coalesced_events(&mut state, 2, 200),
        Some(InputEvent::MouseMove { dx: 40_000i32 as i16, dy: -40_000i32 as i16, timestamp_us: 2 })
    );
}

#[test]
fn local_cursor_follows_every_delta_inside_its_area() {
    let mut state = running();
    process_mouse_delta(&mut state, 10, -20, 0, 1);
    assert_eq!(get_local_cursor_position(&state), (970, 520));
    process_mouse_delta(&mut state, 5000, 5000, 0, 1);
    assert_eq!(get_local_cursor_position(&state), (1920, 1080));
    process_mouse_delta(&mut state, -5000, -5000, 0, 1);
    assert_eq!(get_local_cursor_position(&state), (0, 0));
    process_mouse_delta(&mut state, i32::MAX, i32::MIN, 0, 1);
    assert_eq!(get_local_cursor_position(&state), (1920, 0));
}

#[test]
fn cursor_dimensions_recentre_the_cursor() {
    let mut state = RawInputState::new();
    set_local_cursor_dimensions(&mut state, 2560, 1441);
    assert_eq!(get_local_cursor_area(&state), (1280, 720, 2560, 1441));
    set_local_cursor_dimensions(&mut state, 0, 0);
    assert_eq!(get_local_cursor_area(&state), (0, 0, 0, 0));
    state = running();
    process_mouse_delta(&mut state, 7, 7, 0, 1);
    assert_eq!(get_local_cursor_position(&state), (967, 547));
}

#[test]
fn scroll_is_scaled_to_120_per_notch() {
    let state = running();
    assert_eq!(process_scroll(&state, 0, 1), None);
    assert_eq!(process_scroll(&state, 1, 2), Some(InputEvent::MouseWheel { delta: 120, timestamp_us: 2 }));
    assert_eq!(process_scroll(&state, -3, 3), Some(InputEvent::MouseWheel { delta: -360, timestamp_us: 3 }));
    // 300 notches are 36000 units: the low 16 bits.
    assert_eq!(process_scroll(&state, 300, 4), Some(InputEvent::MouseWheel { delta: 36000i32 as i16, timestamp_us: 4 }));
    let idle = RawInputState::new();
    assert_eq!(process_scroll(&idle, 1, 5), None);
}

#[test]
fn relative_axes_move_or_scroll() {
    let mut state = running();
    assert_eq!(process_relative_axis(&mut state, RelativeAxis::X, 3, 100, 1), None);
    assert_eq!(process_relative_axis(&mut state, RelativeAxis::Y, -4, 100, 1), None);
    assert_eq!(get_local_cursor_position(&state), (963, 536));
    assert_eq!(
        process_relative_axis(&mut state, RelativeAxis::Wheel, 1, 100, 9),
        Some(InputEvent::MouseWheel { delta: 120, timestamp_us: 9 })
    );
    assert_eq!(
        process_relative_axis(&mut state, RelativeAxis::WheelHiRes, -1, 100, 9),
        Some(InputEvent::MouseWheel { delta: -120, timestamp_us: 9 })
    );
    assert_eq!(process_relative_axis(&mut state, RelativeAxis::Other, 55, 100, 9), None);
    assert_eq!(
        process_relative_axis(&mut state, RelativeAxis::X, 1, 2000, 10),
        Some(InputEvent::MouseMove { dx: 4, dy: -4, timestamp_us: 10 })
    );
}

#[test]
fn valuator_slots_follow_the_mask() {
    assert_eq!(valuator_slots(&[]), (None, None));
    assert_eq!(valuator_slots(&[0b00]), (None, None));
    assert_eq!(valuator_slots(&[0b01]), (Some(0), None));
    assert_eq!(valuator_slots(&[0b10]), (None, Some(0)));
    assert_eq!(valuator_slots(&[0b11, 0xFF]), (Some(0), Some(1)));
    assert_eq!(valuator_slots(&[0b1111_1110]), (None, Some(0)));
}

#[test]
fn start_pause_resume_and_stop() {
    let mut state = RawInputState::new();
    // Resume without a capture does nothing.
    resume_raw_input(&mut state);
    assert!(!is_raw_input_active(&state));
    assert_eq!(begin_start(&mut state), StartAction::StartBackend);
    backend_started(&mut state, InputBackend::X11);
    assert!(state.is_registered());
    assert!(is_raw_input_active(&state));
    assert_eq!(begin_start(&mut state), StartAction::AlreadyActive);
    set_raw_input_sender(&mut state);
    process_mouse_delta(&mut state, 3, 3, 100, 1);
    pause_raw_input(&mut state);
    assert!(!is_raw_input_active(&state));
    assert_eq!(get_raw_mouse_delta(&mut state), (0, 0));
    // Starting a paused capture resumes it with clean counters.
    assert_eq!(begin_start(&mut state), StartAction::Resumed);
    assert!(is_raw_input_active(&state));
    assert_eq!(flush_coalesced_events(&mut state, 1, 1), None);
    pause_raw_input(&mut state);
    process_mouse_delta(&mut state, 1, 1, 100, 1);
    resume_raw_input(&mut state);
    assert!(is_raw_input_active(&state));
    assert_eq!(get_raw_mouse_delta(&mut state), (0, 0));
    process_mouse_delta(&mut state, 9, 9, 100, 1);
    request_stop(&mut state);
    assert!(state.is_stop_requested());
    assert!(!is_raw_input_active(&state));
    assert!(state.is_registered());
    assert_eq!(get_local_cursor_position(&state), (960, 540));
    assert_eq!(get_raw_mouse_delta(&mut state), (0, 0));
    assert_eq!(flush_coalesced_events(&mut state, 1, 1), None);
    backend_stopped(&mut state);
    finish_stop(&mut state);
    assert!(!state.is_registered());
    assert_eq!(get_active_backend_name(&state), "none");
    // A new start clears the stop request.
    assert_eq!(begin_start(&mut state), StartAction::StartBackend);
    assert!(!state.is_stop_requested());
}

#[test]
fn reset_coalescing_clears_the_batch_and_the_count() {
    let mut state = running();
    process_mouse_delta(&mut state, 3, 4, 100, 1);
    process_mouse_delta(&mut state, 3, 4, 3000, 1);
    reset_coalescing(&mut state);
    assert_eq!(get_coalesced_event_count(&state), 0);
    assert_eq!(get_local_cursor_position(&state), (960, 540));
    assert_eq!(flush_coalesced_events(&mut state, 1, 1), None);
    // The last send is forgotten: the next batch is due at once.
    assert!(process_mouse_delta(&mut state, 1, 0, 2000, 2).is_some());
    // The accumulated movement is not touched.
    assert_eq!(get_raw_mouse_delta(&mut state), (7, 8));
}

#[test]
fn update_center_changes_nothing() {
    let mut state = running();
    process_mouse_delta(&mut state, 3, 4, 100, 1);
    update_raw_input_center(&mut state);
    assert_eq!(get_local_cursor_position(&state), (963, 544));
    assert_eq!(get_coalesced_event_count(&state), 1);
    assert_eq!(get_raw_mouse_delta(&mut state), (3, 4));
}

fn device(
    path: &str,
    node_name: &str,
    device_name: &str,
    has_rel_x: bool,
    has_rel_y: bool,
) -> opennow_streamer::input::linux::InputDevice {
    opennow_streamer::input::linux::InputDevice {
        path: path.to_string(),
        node_name: node_name.to_string(),
        device_name: device_name.to_string(),
        has_rel_x,
        has_rel_y,
    }
}

#[test]
fn a_mouse_is_an_event_node_with_both_axes_and_no_tablet_name() {
    use_is_mouse("event3", "Logitech G502", true, true, true);
    use_is_mouse("event3", "Logitech G502", true, false, false);
    use_is_mouse("event3", "Logitech G502", false, true, false);
    use_is_mouse("mouse0", "Logitech G502", true, true, false);
    use_is_mouse("js0event", "Logitech G502", true, true, false);
    use_is_mouse("event4", "Wacom Intuos", true, true, false);
    use_is_mouse("event4", "ELAN TouchPad", true, true, false);
    use_is_mouse("event4", "Graphics TABLET", true, true, false);
    use_is_mouse("event", "", true, true, true);
}

fn use_is_mouse(node: &str, name: &str, rel_x: bool, rel_y: bool, expected: bool) {
    assert_eq!(
        opennow_streamer::input::linux::is_mouse_device(node, name, rel_x, rel_y),
        expected,
        "{node} {name} {rel_x} {rel_y}"
    );
}

#[test]
fn the_first_mouse_among_the_devices_is_found() {
    let devices = vec![
        device("/dev/input/event0", "event0", "Power Button", false, false),
        device("/dev/input/event1", "event1", "Wacom Pen", true, true),
        device("/dev/input/event2", "event2", "USB Optical Mouse", true, true),
        device("/dev/input/event3", "event3", "Another Mouse", true, true),
    ];
    assert_eq!(
        opennow_streamer::input::linux::find_mouse_device(&devices, &[true, true, true]),
        Some("/dev/input/event2".to_string())
    );
}

#[test]
fn without_a_mouse_the_first_fallback_path_that_exists_is_taken() {
    let devices = vec![device("/dev/input/event0", "event0", "Power Button", false, false)];
    let find = opennow_streamer::input::linux::find_mouse_device;
    assert_eq!(find(&devices, &[true, true, true]), Some("/dev/input/mice".to_string()));
    assert_eq!(find(&devices, &[false, true, true]), Some("/dev/input/mouse0".to_string()));
    assert_eq!(find(&devices, &[false, false, true]), Some("/dev/input/event0".to_string()));
    assert_eq!(find(&devices, &[false, false, false]), None);
    assert_eq!(find(&Vec::new(), &[false, false, false]), None);
    assert_eq!(
        opennow_streamer::input::linux::fallback_mouse_paths(),
        ["/dev/input/mice", "/dev/input/mouse0", "/dev/input/event0"]
    );
}

#[test]
fn the_model_text_names_a_raspberry_pi_in_any_case() {
    let names = opennow_streamer::input::linux::names_raspberry_pi;
    assert!(names("Raspberry Pi 5 Model B Rev 1.0"));
    assert!(names("RASPBERRY PI 4"));
    assert!(!names("Raspberry"));
    assert!(!names("Generic x86 board"));
    assert!(!names(""));
}
