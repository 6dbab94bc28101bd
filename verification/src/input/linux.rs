//! Linux raw input: mouse deltas from evdev or X11 XInput2.
//!
//! Deltas are coalesced into batches, one every two milliseconds at most, and
//! a local cursor follows every delta at once for instant visual feedback.
//! The state of the capture is one value that the capture thread and the
//! stream share; devices and channels belong to the caller, who hands in the
//! time and sends what the functions here return.

use vstd::prelude::*;
use crate::input::{
    clamped, low_16_bits, truncate_to_i16, wrapped_sum, wrapping_sum, InputEvent,
    MOUSE_COALESCE_INTERVAL_US,
};
use crate::text::{contains, has_prefix, has_substring, lowercase_of, starts_with, to_lowercase};

verus! {

/// Input backend type
#[derive(Debug, Clone, Copy, PartialEq, Eq, Structural)]
pub enum InputBackend {
    Evdev,
    X11,
    /// No backend is capturing.
    Unset,
}

/// Relative axis of a pointer device.
#[derive(Debug, Clone, Copy, PartialEq, Eq, Structural)]
pub enum RelativeAxis {
    X,
    Y,
    Wheel,
    WheelHiRes,
    Other,
}

/// What starting the capture has to do next.
#[derive(Debug, Clone, Copy, PartialEq, Eq, Structural)]
pub enum StartAction {
    /// The capture is running: nothing to do.
    AlreadyActive,
    /// A paused capture was resumed with clean counters.
    Resumed,
    /// No capture is registered: a backend has to be started.
    StartBackend,
}

/// The capture as contracts see it.
pub struct RawInputModel {
    pub registered: bool,
    pub active: bool,
    pub stop_requested: bool,
    pub accumulated_dx: i32,
    pub accumulated_dy: i32,
    pub coalesce_dx: i32,
    pub coalesce_dy: i32,
    pub coalesce_last_send_us: u64,
    pub coalesced_event_count: u64,
    pub cursor_x: i32,
    pub cursor_y: i32,
    pub cursor_width: i32,
    pub cursor_height: i32,
    pub has_sender: bool,
    pub backend: InputBackend,
}

impl RawInputModel {
    /// The local cursor area is not negative.
    pub open spec fn wf(self) -> bool {
        self.cursor_width >= 0 && self.cursor_height >= 0
    }

    /// The capture with the batch taken out.
    pub open spec fn batch_taken(self) -> RawInputModel {
        RawInputModel { coalesce_dx: 0, coalesce_dy: 0, ..self }
    }

    /// Whether the batch holds any movement.
    pub open spec fn batch_pending(self) -> bool {
        self.coalesce_dx != 0 || self.coalesce_dy != 0
    }

    /// The capture after a flush at session time `now_us`.
    pub open spec fn flushed(self, now_us: u64) -> RawInputModel {
        if self.batch_pending() {
            RawInputModel { coalesce_last_send_us: now_us, ..self.batch_taken() }
        } else {
            self
        }
    }

    /// What a flush sends: the batch, if it holds movement and a sender is
    /// set.
    pub open spec fn flush_event(self, timestamp_us: u64) -> Option<InputEvent> {
        if self.batch_pending() && self.has_sender {
            Some(
                InputEvent::MouseMove {
                    dx: low_16_bits(self.coalesce_dx as int),
                    dy: low_16_bits(self.coalesce_dy as int),
                    timestamp_us,
                },
            )
        } else {
            None
        }
    }

    /// The capture after movement by `(dx, dy)` was gathered, before any
    /// flush: the cursor moved inside its area, and every counter took the
    /// movement in.
    pub open spec fn gathered(self, dx: i32, dy: i32) -> RawInputModel {
        RawInputModel {
            cursor_x: clamped(self.cursor_x + dx, 0, self.cursor_width as int) as i32,
            cursor_y: clamped(self.cursor_y + dy, 0, self.cursor_height as int) as i32,
            coalesce_dx: wrapped_sum(self.coalesce_dx, dx),
            coalesce_dy: wrapped_sum(self.coalesce_dy, dy),
            coalesced_event_count: if self.coalesced_event_count == u64::MAX {
                0
            } else {
                (self.coalesced_event_count + 1) as u64
            },
            accumulated_dx: wrapped_sum(self.accumulated_dx, dx),
            accumulated_dy: wrapped_sum(self.accumulated_dy, dy),
            ..self
        }
    }

    /// Whether a batch is due at session time `now_us`.
    pub open spec fn batch_due(self, now_us: u64) -> bool {
        now_us >= self.coalesce_last_send_us && now_us - self.coalesce_last_send_us
            >= MOUSE_COALESCE_INTERVAL_US
    }

    /// The capture after movement by `(dx, dy)` at session time `now_us`.
    pub open spec fn after_delta(self, dx: i32, dy: i32, now_us: u64) -> RawInputModel {
        if dx == 0 && dy == 0 {
            self
        } else if self.gathered(dx, dy).batch_due(now_us) {
            self.gathered(dx, dy).flushed(now_us)
        } else {
            self.gathered(dx, dy)
        }
    }

    /// What movement by `(dx, dy)` at session time `now_us` sends.
    pub open spec fn delta_event(self, dx: i32, dy: i32, now_us: u64, timestamp_us: u64) -> Option<
        InputEvent,
    > {
        if (dx != 0 || dy != 0) && self.gathered(dx, dy).batch_due(now_us) {
            self.gathered(dx, dy).flush_event(timestamp_us)
        } else {
            None
        }
    }

    /// The capture with its counters and its batch cleared.
    pub open spec fn counters_cleared(self) -> RawInputModel {
        RawInputModel {
            accumulated_dx: 0,
            accumulated_dy: 0,
            coalesce_dx: 0,
            coalesce_dy: 0,
            coalesce_last_send_us: 0,
            ..self
        }
    }

    /// The capture with the local cursor in the middle of its area.
    pub open spec fn cursor_centered(self) -> RawInputModel {
        RawInputModel {
            cursor_x: (self.cursor_width / 2) as i32,
            cursor_y: (self.cursor_height / 2) as i32,
            ..self
        }
    }
}

/// What a scroll by `delta` notches sends: 120 units per notch, kept to 16
/// bits; nothing for no movement or without a sender.
pub open spec fn scroll_event(has_sender: bool, delta: i32, timestamp_us: u64) -> Option<
    InputEvent,
> {
    if delta != 0 && has_sender {
        Some(InputEvent::MouseWheel { delta: low_16_bits(delta * 120), timestamp_us })
    } else {
        None
    }
}

/// Name of a backend, for debugging.
pub open spec fn backend_name(backend: InputBackend) -> Seq<char> {
    match backend {
        InputBackend::Evdev => "evdev"@,
        InputBackend::X11 => "X11 XInput2"@,
        InputBackend::Unset => "none"@,
    }
}

/// State of the raw input capture.
pub struct RawInputState {
    registered: bool,
    active: bool,
    stop_requested: bool,
    accumulated_dx: i32,
    accumulated_dy: i32,
    coalesce_dx: i32,
    coalesce_dy: i32,
    coalesce_last_send_us: u64,
    coalesced_event_count: u64,
    cursor_x: i32,
    cursor_y: i32,
    cursor_width: i32,
    cursor_height: i32,
    has_sender: bool,
    backend: InputBackend,
}

impl View for RawInputState {
    type V = RawInputModel;

    closed spec fn view(&self) -> RawInputModel {
        RawInputModel {
            registered: self.registered,
            active: self.active,
            stop_requested: self.stop_requested,
            accumulated_dx: self.accumulated_dx,
            accumulated_dy: self.accumulated_dy,
            coalesce_dx: self.coalesce_dx,
            coalesce_dy: self.coalesce_dy,
            coalesce_last_send_us: self.coalesce_last_send_us,
            coalesced_event_count: self.coalesced_event_count,
            cursor_x: self.cursor_x,
            cursor_y: self.cursor_y,
            cursor_width: self.cursor_width,
            cursor_height: self.cursor_height,
            has_sender: self.has_sender,
            backend: self.backend,
        }
    }
}

/// The capture before anything has happened: nothing registered, a cursor
/// in the middle of a 1920 by 1080 area.
pub open spec fn initial_model() -> RawInputModel {
    RawInputModel {
        registered: false,
        active: false,
        stop_requested: false,
        accumulated_dx: 0,
        accumulated_dy: 0,
        coalesce_dx: 0,
        coalesce_dy: 0,
        coalesce_last_send_us: 0,
        coalesced_event_count: 0,
        cursor_x: 960,
        cursor_y: 540,
        cursor_width: 1920,
        cursor_height: 1080,
        has_sender: false,
        backend: InputBackend::Unset,
    }
}

impl RawInputState {
    /// The state before anything has happened.
    pub fn new() -> (state: Self)
        ensures
            state@ == initial_model(),
            state@.wf(),
    {
        RawInputState {
            registered: false,
            active: false,
            stop_requested: false,
            accumulated_dx: 0,
            accumulated_dy: 0,
            coalesce_dx: 0,
            coalesce_dy: 0,
            coalesce_last_send_us: 0,
            coalesced_event_count: 0,
            cursor_x: 960,
            cursor_y: 540,
            cursor_width: 1920,
            cursor_height: 1080,
            has_sender: false,
            backend: InputBackend::Unset,
        }
    }

    /// Whether a capture is registered.
    pub fn is_registered(&self) -> (registered: bool)
        ensures
            registered == self@.registered,
    {
        self.registered
    }

    /// Whether the capture thread was asked to stop.
    pub fn is_stop_requested(&self) -> (stop: bool)
        ensures
            stop == self@.stop_requested,
    {
        self.stop_requested
    }
}

/// Flush coalesced mouse events: takes the batch out and returns what is to
/// be sent, at wall time `timestamp_us` and session time `now_us`.
pub fn flush_coalesced_events(state: &mut RawInputState, timestamp_us: u64, now_us: u64) -> (event:
    Option<InputEvent>)
    ensures
        final(state)@ == old(state)@.flushed(now_us),
        event == old(state)@.flush_event(timestamp_us),
{
    let dx: i32 = state.coalesce_dx;
    let dy: i32 = state.coalesce_dy;
    state.coalesce_dx = 0;
    state.coalesce_dy = 0;
    if dx != 0 || dy != 0 {
        state.coalesce_last_send_us = now_us;
        if state.has_sender {
            return Some(
                InputEvent::MouseMove {
                    dx: truncate_to_i16(dx as i64),
                    dy: truncate_to_i16(dy as i64),
                    timestamp_us,
                },
            );
        }
    }
    None
}

/// `value` kept between zero and `high`.
fn clamp_to_area(value: i64, high: i32) -> (kept: i32)
    requires
        high >= 0,
    ensures
        kept == clamped(value as int, 0, high as int),
{
    if value < 0 {
        0
    } else if value > high as i64 {
        high
    } else {
        value as i32
    }
}

/// One more, starting again from zero after the largest value.
fn count_up(count: u64) -> (next: u64)
    ensures
        next == if count == u64::MAX {
            0
        } else {
            (count + 1) as u64
        },
{
    if count == u64::MAX {
        0
    } else {
        count + 1
    }
}

/// Process mouse delta from any backend: moves the local cursor at once,
/// gathers the delta, and flushes the batch when one is due at session time
/// `now_us`. Returns what is to be sent.
pub fn process_mouse_delta(
    state: &mut RawInputState,
    dx: i32,
    dy: i32,
    now_us: u64,
    timestamp_us: u64,
) -> (event: Option<InputEvent>)
    requires
        old(state)@.wf(),
    ensures
        final(state)@.wf(),
        final(state)@ == old(state)@.after_delta(dx, dy, now_us),
        event == old(state)@.delta_event(dx, dy, now_us, timestamp_us),
{
    if dx == 0 && dy == 0 {
        return None;
    }
    state.cursor_x = clamp_to_area(state.cursor_x as i64 + dx as i64, state.cursor_width);
    state.cursor_y = clamp_to_area(state.cursor_y as i64 + dy as i64, state.cursor_height);
    state.coalesce_dx = wrapping_sum(state.coalesce_dx, dx);
    state.coalesce_dy = wrapping_sum(state.coalesce_dy, dy);
    state.coalesced_event_count = count_up(state.coalesced_event_count);
    state.accumulated_dx = wrapping_sum(state.accumulated_dx, dx);
    state.accumulated_dy = wrapping_sum(state.accumulated_dy, dy);
    let last_us: u64 = state.coalesce_last_send_us;
    if now_us.saturating_sub(last_us) >= MOUSE_COALESCE_INTERVAL_US {
        flush_coalesced_events(state, timestamp_us, now_us)
    } else {
        None
    }
}

/// Process scroll wheel event: one notch is 120 units on the stream.
pub fn process_scroll(state: &RawInputState, delta: i32, timestamp_us: u64) -> (event: Option<
    InputEvent,
>)
    ensures
        event == scroll_event(state@.has_sender, delta, timestamp_us),
{
    if delta == 0 {
        return None;
    }
    if state.has_sender {
        Some(InputEvent::MouseWheel { delta: truncate_to_i16(delta as i64 * 120), timestamp_us })
    } else {
        None
    }
}

/// Process one relative-axis event of a pointer device while the capture is
/// active: movement on the two axes, scrolling on the wheels, nothing else.
pub fn process_relative_axis(
    state: &mut RawInputState,
    axis: RelativeAxis,
    value: i32,
    now_us: u64,
    timestamp_us: u64,
) -> (event: Option<InputEvent>)
    requires
        old(state)@.wf(),
    ensures
        final(state)@.wf(),
        final(state)@ == match axis {
            RelativeAxis::X => old(state)@.after_delta(value, 0, now_us),
            RelativeAxis::Y => old(state)@.after_delta(0, value, now_us),
            _ => old(state)@,
        },
        event == match axis {
            RelativeAxis::X => old(state)@.delta_event(value, 0, now_us, timestamp_us),
            RelativeAxis::Y => old(state)@.delta_event(0, value, now_us, timestamp_us),
            RelativeAxis::Wheel | RelativeAxis::WheelHiRes => scroll_event(
                old(state)@.has_sender,
                value,
                timestamp_us,
            ),
            RelativeAxis::Other => None,
        },
{
    match axis {
        RelativeAxis::X => process_mouse_delta(state, value, 0, now_us, timestamp_us),
        RelativeAxis::Y => process_mouse_delta(state, 0, value, now_us, timestamp_us),
        RelativeAxis::Wheel | RelativeAxis::WheelHiRes => process_scroll(
            state,
            value,
            timestamp_us,
        ),
        RelativeAxis::Other => None,
    }
}

/// Where valuator `axis` stands among the values of a raw event: the number
/// of valuators below it that the mask has set, if the mask has it set.
pub open spec fn valuator_slot(mask: Seq<u8>, axis: int) -> Option<int> {
    if 0 <= axis < 8 * mask.len() && mask_has(mask, axis) {
        Some(set_below(mask, axis))
    } else {
        None
    }
}

/// Whether the mask has valuator `axis` set.
pub open spec fn mask_has(mask: Seq<u8>, axis: int) -> bool {
    (mask[axis / 8] >> ((axis % 8) as u8)) & 1 == 1
}

/// Number of valuators below `axis` that the mask has set.
pub open spec fn set_below(mask: Seq<u8>, axis: int) -> int
    decreases axis,
{
    if axis <= 0 {
        0
    } else {
        set_below(mask, axis - 1) + if mask_has(mask, axis - 1) {
            1int
        } else {
            0int
        }
    }
}

/// Positions of the horizontal and the vertical movement among the values
/// of a raw motion event, from the event's valuator mask.
pub fn valuator_slots(mask: &[u8]) -> (slots: (Option<usize>, Option<usize>))
    ensures
        slots.0 matches Some(at) ==> valuator_slot(mask@, 0) == Some(at as int),
        slots.0 is None ==> valuator_slot(mask@, 0) is None,
        slots.1 matches Some(at) ==> valuator_slot(mask@, 1) == Some(at as int),
        slots.1 is None ==> valuator_slot(mask@, 1) is None,
{
    if mask.len() == 0 {
        return (None, None);
    }
    let first: u8 = mask[0];
    let has_x = first & 1 == 1;
    let has_y = (first >> 1) & 1 == 1;
    assert(first >> 0u8 == first) by (bit_vector);
    assert(set_below(mask@, 1) == set_below(mask@, 0) + if mask_has(mask@, 0) {
        1int
    } else {
        0int
    });
    let x = if has_x {
        Some(0)
    } else {
        None
    };
    let y = if has_y {
        if has_x {
            Some(1)
        } else {
            Some(0)
        }
    } else {
        None
    };
    (x, y)
}

/// What starting the capture has to do: nothing where it is running; where
/// it is registered but paused, the counters are cleared and it runs again;
/// else everything is reset for a new backend.
pub fn begin_start(state: &mut RawInputState) -> (action: StartAction)
    ensures
        action == if old(state)@.registered && old(state)@.active {
            StartAction::AlreadyActive
        } else if old(state)@.registered {
            StartAction::Resumed
        } else {
            StartAction::StartBackend
        },
        final(state)@ == match action {
            StartAction::AlreadyActive => old(state)@,
            StartAction::Resumed => RawInputModel { active: true, ..old(state)@.counters_cleared() },
            StartAction::StartBackend => RawInputModel {
                stop_requested: false,
                coalesced_event_count: 0,
                ..old(state)@.counters_cleared()
            },
        },
{
    if state.registered {
        if state.active {
            return StartAction::AlreadyActive;
        }
        state.accumulated_dx = 0;
        state.accumulated_dy = 0;
        state.coalesce_dx = 0;
        state.coalesce_dy = 0;
        state.coalesce_last_send_us = 0;
        state.active = true;
        return StartAction::Resumed;
    }
    state.stop_requested = false;
    state.accumulated_dx = 0;
    state.accumulated_dy = 0;
    state.coalesce_dx = 0;
    state.coalesce_dy = 0;
    state.coalesce_last_send_us = 0;
    state.coalesced_event_count = 0;
    StartAction::StartBackend
}

/// Records that a backend opened its device and captures from now on.
pub fn backend_started(state: &mut RawInputState, backend: InputBackend)
    ensures
        final(state)@ == (RawInputModel {
            registered: true,
            active: true,
            backend,
            ..old(state)@
        }),
{
    state.registered = true;
    state.active = true;
    state.backend = backend;
}

/// Records that the capture thread has ended.
pub fn backend_stopped(state: &mut RawInputState)
    ensures
        final(state)@ == (RawInputModel { registered: false, active: false, ..old(state)@ }),
{
    state.registered = false;
    state.active = false;
}

/// Pause raw input capture
pub fn pause_raw_input(state: &mut RawInputState)
    ensures
        final(state)@ == (RawInputModel {
            active: false,
            accumulated_dx: 0,
            accumulated_dy: 0,
            ..old(state)@
        }),
{
    state.active = false;
    state.accumulated_dx = 0;
    state.accumulated_dy = 0;
}

/// Resume raw input capture, if one is registered
pub fn resume_raw_input(state: &mut RawInputState)
    ensures
        final(state)@ == if old(state)@.registered {
            RawInputModel { active: true, accumulated_dx: 0, accumulated_dy: 0, ..old(state)@ }
        } else {
            old(state)@
        },
{
    if state.registered {
        state.accumulated_dx = 0;
        state.accumulated_dy = 0;
        state.active = true;
    }
}

/// First half of stopping raw input completely: asks the capture thread to
/// stop, forgets the sender, clears the counters and centres the cursor.
/// The caller then waits for the thread and calls `finish_stop`.
pub fn request_stop(state: &mut RawInputState)
    requires
        old(state)@.wf(),
    ensures
        final(state)@.wf(),
        final(state)@ == (RawInputModel {
            stop_requested: true,
            active: false,
            has_sender: false,
            ..old(state)@.counters_cleared().cursor_centered()
        }),
{
    state.stop_requested = true;
    state.active = false;
    clear_raw_input_sender(state);
    state.accumulated_dx = 0;
    state.accumulated_dy = 0;
    state.coalesce_dx = 0;
    state.coalesce_dy = 0;
    state.coalesce_last_send_us = 0;
    state.cursor_x = state.cursor_width / 2;
    state.cursor_y = state.cursor_height / 2;
}

/// Second half of stopping raw input: whether or not the capture thread
/// ended in time, nothing is registered any more.
pub fn finish_stop(state: &mut RawInputState)
    ensures
        final(state)@ == (RawInputModel {
            registered: false,
            backend: InputBackend::Unset,
            ..old(state)@
        }),
{
    state.registered = false;
    state.backend = InputBackend::Unset;
}

/// Get accumulated mouse deltas and reset
pub fn get_raw_mouse_delta(state: &mut RawInputState) -> (delta: (i32, i32))
    ensures
        delta == (old(state)@.accumulated_dx, old(state)@.accumulated_dy),
        final(state)@ == (RawInputModel { accumulated_dx: 0, accumulated_dy: 0, ..old(state)@ }),
{
    let dx: i32 = state.accumulated_dx;
    let dy: i32 = state.accumulated_dy;
    state.accumulated_dx = 0;
    state.accumulated_dy = 0;
    (dx, dy)
}

/// Check if raw input is active
pub fn is_raw_input_active(state: &RawInputState) -> (active: bool)
    ensures
        active == state@.active,
{
    state.active
}

/// Update center position: evdev gives pure relative motion, so nothing is
/// recentred and the state stays as it is.
pub fn update_raw_input_center(state: &mut RawInputState)
    ensures
        final(state)@ == old(state)@,
{
}

/// Records that a sender for direct delivery of mouse events is set.
pub fn set_raw_input_sender(state: &mut RawInputState)
    ensures
        final(state)@ == (RawInputModel { has_sender: true, ..old(state)@ }),
{
    state.has_sender = true;
}

/// Clear the event sender
pub fn clear_raw_input_sender(state: &mut RawInputState)
    ensures
        final(state)@ == (RawInputModel { has_sender: false, ..old(state)@ }),
{
    state.has_sender = false;
}

/// Set local cursor dimensions (call when stream starts or resolution
/// changes); the cursor goes to the middle of the new area.
pub fn set_local_cursor_dimensions(state: &mut RawInputState, width: u32, height: u32)
    requires
        width <= i32::MAX,
        height <= i32::MAX,
    ensures
        final(state)@.wf(),
        final(state)@ == (RawInputModel {
            cursor_width: width as i32,
            cursor_height: height as i32,
            cursor_x: (width / 2) as i32,
            cursor_y: (height / 2) as i32,
            ..old(state)@
        }),
{
    state.cursor_width = width as i32;
    state.cursor_height = height as i32;
    state.cursor_x = width as i32 / 2;
    state.cursor_y = height as i32 / 2;
}

/// Get local cursor position (for rendering)
pub fn get_local_cursor_position(state: &RawInputState) -> (position: (i32, i32))
    ensures
        position == (state@.cursor_x, state@.cursor_y),
{
    (state.cursor_x, state.cursor_y)
}

/// Local cursor position and area, for a caller that wants the position as
/// a fraction of the area.
pub fn get_local_cursor_area(state: &RawInputState) -> (area: (i32, i32, i32, i32))
    ensures
        area == (state@.cursor_x, state@.cursor_y, state@.cursor_width, state@.cursor_height),
{
    (state.cursor_x, state.cursor_y, state.cursor_width, state.cursor_height)
}

/// Flush any pending coalesced mouse events
pub fn flush_pending_mouse_events(state: &mut RawInputState, timestamp_us: u64, now_us: u64) -> (event:
    Option<InputEvent>)
    ensures
        final(state)@ == old(state)@.flushed(now_us),
        event == old(state)@.flush_event(timestamp_us),
{
    flush_coalesced_events(state, timestamp_us, now_us)
}

/// Get count of coalesced events (for stats)
pub fn get_coalesced_event_count(state: &RawInputState) -> (count: u64)
    ensures
        count == state@.coalesced_event_count,
{
    state.coalesced_event_count
}

/// Reset coalescing state (call when streaming stops); the cursor goes to
/// the middle of its area.
pub fn reset_coalescing(state: &mut RawInputState)
    requires
        old(state)@.wf(),
    ensures
        final(state)@.wf(),
        final(state)@ == (RawInputModel {
            coalesce_dx: 0,
            coalesce_dy: 0,
            coalesce_last_send_us: 0,
            coalesced_event_count: 0,
            ..old(state)@.cursor_centered()
        }),
{
    state.coalesce_dx = 0;
    state.coalesce_dy = 0;
    state.coalesce_last_send_us = 0;
    state.coalesced_event_count = 0;
    state.cursor_x = state.cursor_width / 2;
    state.cursor_y = state.cursor_height / 2;
}

/// Get the active input backend name (for debugging)
pub fn get_active_backend_name(state: &RawInputState) -> (name: &'static str)
    ensures
        name@ == backend_name(state@.backend),
{
    match state.backend {
        InputBackend::Evdev => "evdev",
        InputBackend::X11 => "X11 XInput2",
        InputBackend::Unset => "none",
    }
}

/// An input device node that could be opened: where it lies, the name of
/// its node, the name the device gives itself, and whether it reports
/// relative movement on each of the two axes.
#[derive(Debug)]
pub struct InputDevice {
    pub path: String,
    pub node_name: String,
    pub device_name: String,
    pub has_rel_x: bool,
    pub has_rel_y: bool,
}

/// Fallback device path number `i`: the combined mice device, the first
/// mouse, the first event device.
pub open spec fn fallback_mouse_path(i: int) -> Seq<char> {
    if i == 0 {
        "/dev/input/mice"@
    } else if i == 1 {
        "/dev/input/mouse0"@
    } else {
        "/dev/input/event0"@
    }
}

/// Whether a device counts as a mouse: an event node that reports movement
/// on both axes and does not call itself a tablet or a touch device.
pub open spec fn counts_as_mouse(
    node_name: Seq<char>,
    device_name: Seq<char>,
    has_rel_x: bool,
    has_rel_y: bool,
) -> bool {
    &&& has_prefix(node_name, "event"@)
    &&& has_rel_x
    &&& has_rel_y
    &&& !has_substring(lowercase_of(device_name), "tablet"@)
    &&& !has_substring(lowercase_of(device_name), "touch"@)
    &&& !has_substring(lowercase_of(device_name), "wacom"@)
}

/// Whether device `i` of `devices` counts as a mouse.
pub open spec fn mouse_at(devices: Seq<InputDevice>, i: int) -> bool {
    0 <= i < devices.len() && counts_as_mouse(
        devices[i].node_name@,
        devices[i].device_name@,
        devices[i].has_rel_x,
        devices[i].has_rel_y,
    )
}

/// Whether `i` is the first device of `devices` that counts as a mouse.
pub open spec fn is_first_mouse(devices: Seq<InputDevice>, i: int) -> bool {
    mouse_at(devices, i) && forall|j: int| 0 <= j < i ==> !mouse_at(devices, j)
}

/// Whether `i` is the first fallback path that exists.
pub open spec fn is_first_fallback(exists_at: Seq<bool>, i: int) -> bool {
    &&& 0 <= i < exists_at.len()
    &&& exists_at[i]
    &&& forall|j: int| 0 <= j < i ==> !exists_at[j]
}

/// Whether a device counts as a mouse.
pub fn is_mouse_device(node_name: &str, device_name: &str, has_rel_x: bool, has_rel_y: bool) -> (yes:
    bool)
    ensures
        yes == counts_as_mouse(node_name@, device_name@, has_rel_x, has_rel_y),
{
    if !starts_with(node_name, "event") || !has_rel_x || !has_rel_y {
        return false;
    }
    let lower = to_lowercase(device_name);
    let name = lower.as_str();
    !contains(name, "tablet") && !contains(name, "touch") && !contains(name, "wacom")
}

/// The device paths that are tried when no event device is a mouse, in
/// order.
pub fn fallback_mouse_paths() -> (paths: [&'static str; 3])
    ensures
        forall|i: int| 0 <= i < 3 ==> (#[trigger] paths[i])@ == fallback_mouse_path(i),
{
    ["/dev/input/mice", "/dev/input/mouse0", "/dev/input/event0"]
}

/// Find the primary mouse device: the first of `devices` that counts as a
/// mouse, else the first fallback path that exists. `fallback_exists` says
/// of each fallback path, in order, whether it is there.
pub fn find_mouse_device(devices: &Vec<InputDevice>, fallback_exists: &[bool; 3]) -> (device: Option<
    String,
>)
    ensures
        device matches Some(path) ==> {
            ||| exists|i: int| is_first_mouse(devices@, i) && path@ == devices@[i].path@
            ||| (forall|i: int| !mouse_at(devices@, i)) && exists|k: int|
                is_first_fallback(fallback_exists@, k) && path@ == fallback_mouse_path(k)
        },
        device is None ==> (forall|i: int| !mouse_at(devices@, i)) && forall|k: int|
            0 <= k < 3 ==> !fallback_exists@[k],
{
    let mut i: usize = 0;
    while i < devices.len()
        invariant
            i <= devices@.len(),
            forall|j: int| 0 <= j < i ==> !mouse_at(devices@, j),
        decreases devices@.len() - i,
    {
        let d = &devices[i];
        if is_mouse_device(d.node_name.as_str(), d.device_name.as_str(), d.has_rel_x, d.has_rel_y) {
            assert(is_first_mouse(devices@, i as int));
            return Some(d.path.clone());
        }
        i += 1;
    }
    let paths = fallback_mouse_paths();
    let mut k: usize = 0;
    while k < 3
        invariant
            k <= 3,
            forall|j: int| 0 <= j < k ==> !fallback_exists@[j],
            forall|j: int| !mouse_at(devices@, j),
            forall|j: int| 0 <= j < 3 ==> (#[trigger] paths[j])@ == fallback_mouse_path(j),
        decreases 3 - k,
    {
        if fallback_exists[k] {
            assert(is_first_fallback(fallback_exists@, k as int));
            let path = paths[k].to_string();
            return Some(path);
        }
        k += 1;
    }
    None
}

/// Whether the device tree's model text names a Raspberry Pi.
pub fn names_raspberry_pi(model: &str) -> (yes: bool)
    ensures
        yes == has_substring(lowercase_of(model@), "raspberry pi"@),
{
    let lower = to_lowercase(model);
    contains(lower.as_str(), "raspberry pi")
}

} // verus!
