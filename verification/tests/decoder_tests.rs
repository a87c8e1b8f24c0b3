use dualmouse::arith::Scale;
use dualmouse::cursor::{Button, CursorId, CursorState};
use dualmouse::decode::Decoder;
use dualmouse::events::{
    RawEvent, RawEventKind, ABS_MT_POSITION_X, ABS_MT_POSITION_Y, ABS_MT_SLOT,
    ABS_MT_TRACKING_ID, ABS_X, ABS_Y, BTN_LEFT, BTN_MIDDLE, BTN_RIGHT, REL_WHEEL, REL_X, REL_Y,
};
use dualmouse::mapping::{MappingStrategy, SingleDeviceMapping, ValueRange};

fn rel(code: u16, value: i32) -> RawEvent {
    RawEvent { kind: RawEventKind::RelAxis, code, value }
}

fn abs(code: u16, value: i32) -> RawEvent {
    RawEvent { kind: RawEventKind::AbsAxis, code, value }
}

fn key(code: u16, value: i32) -> RawEvent {
    RawEvent { kind: RawEventKind::Key, code, value }
}

fn sync() -> RawEvent {
    RawEvent { kind: RawEventKind::Sync, code: 0, value: 0 }
}

fn left_decoder() -> Decoder {
    Decoder::new(
        MappingStrategy::DevicePerCursor { cursor: CursorId::Left },
        Scale::new(1, 50),
    )
}

#[test]
fn device_per_cursor_relative_motion() {
    // Device fixed to Left reports REL_X=+5, REL_Y=-3, then sync:
    // exactly one event for Left with dx 5.0 and dy -3.0.
    let mut d = left_decoder();
    assert!(d.decode(rel(REL_X, 5)).is_empty());
    assert!(d.decode(rel(REL_Y, -3)).is_empty());
    let out = d.decode(sync());
    assert_eq!(out.len(), 1);
    let ev = out[0];
    assert_eq!(ev.cursor, CursorId::Left);
    assert_eq!(ev.dx_num, 5 * 50);
    assert_eq!(ev.dy_num, -3 * 50);
    assert_eq!(ev.dx_num as f32 / 50.0, 5.0);
    assert_eq!(ev.dy_num as f32 / 50.0, -3.0);
    assert_eq!(ev.wheel, 0);
    assert_eq!(ev.button, None);
}

#[test]
fn relative_reports_sum_exactly() {
    let mut d = left_decoder();
    d.decode(rel(REL_X, 5));
    d.decode(rel(REL_X, 7));
    d.decode(rel(REL_Y, -2));
    d.decode(rel(REL_WHEEL, 3));
    d.decode(rel(REL_WHEEL, -1));
    let out = d.decode(sync());
    assert_eq!(out.len(), 1);
    assert_eq!(out[0].dx_num, 12 * 50);
    assert_eq!(out[0].dy_num, -2 * 50);
    assert_eq!(out[0].wheel, 2);
}

#[test]
fn no_event_without_motion_wheel_or_button() {
    let mut d = left_decoder();
    assert!(d.decode(sync()).is_empty());
    d.decode(rel(REL_X, 0));
    d.decode(rel(REL_Y, 0));
    assert!(d.decode(sync()).is_empty());
    // Increments that cancel exactly are suppressed too.
    d.decode(rel(REL_X, 4));
    d.decode(rel(REL_X, -4));
    assert!(d.decode(sync()).is_empty());
}

#[test]
fn abs_first_sample_seeds_second_scales() {
    // First complete absolute sample yields zero delta; the second
    // yields (current - previous) * scale.
    let mut d = left_decoder();
    d.decode(abs(ABS_X, 100));
    d.decode(abs(ABS_Y, 100));
    assert!(d.decode(sync()).is_empty());
    d.decode(abs(ABS_X, 90));
    d.decode(abs(ABS_Y, 120));
    let out = d.decode(sync());
    assert_eq!(out.len(), 1);
    assert_eq!(out[0].dx_num, -10);
    assert_eq!(out[0].dy_num, 20);
    assert!((out[0].dx_num as f32 / 50.0 - (90.0 - 100.0) * 0.02).abs() < 1e-6);
    assert!((out[0].dy_num as f32 / 50.0 - (120.0 - 100.0) * 0.02).abs() < 1e-6);
}

#[test]
fn abs_half_sample_is_held_back() {
    // Only X of the second sample arrives: no delta is computed and
    // the pending X is not discarded.
    let mut d = left_decoder();
    d.decode(abs(ABS_X, 10));
    d.decode(abs(ABS_Y, 10));
    d.decode(sync());
    d.decode(abs(ABS_X, 30));
    assert!(d.decode(sync()).is_empty());
    d.decode(abs(ABS_Y, 40));
    let out = d.decode(sync());
    assert_eq!(out.len(), 1);
    assert_eq!(out[0].dx_num, 20);
    assert_eq!(out[0].dy_num, 30);
}

#[test]
fn single_device_abs_axis_range_routes_left() {
    // Axis value 500 lies in the left range; a relative report after
    // it routes to Left with dx 2.0.
    let mapping = MappingStrategy::SingleDevice {
        mapping: SingleDeviceMapping::ByAbsAxisRange {
            axis: 40,
            left: ValueRange { lo: 0, hi: 1000 },
            right: ValueRange { lo: 1001, hi: 2000 },
        },
    };
    let mut d = Decoder::new(mapping, Scale::new(1, 50));
    d.decode(abs(40, 500));
    d.decode(rel(REL_X, 2));
    let out = d.decode(sync());
    assert_eq!(out.len(), 1);
    assert_eq!(out[0].cursor, CursorId::Left);
    assert_eq!(out[0].dx_num as f32 / 50.0, 2.0);
}

#[test]
fn abs_axis_range_sticky_outside_both_ranges() {
    let mapping = MappingStrategy::SingleDevice {
        mapping: SingleDeviceMapping::ByAbsAxisRange {
            axis: 40,
            left: ValueRange { lo: 0, hi: 1000 },
            right: ValueRange { lo: 1001, hi: 2000 },
        },
    };
    let mut d = Decoder::new(mapping, Scale::new(1, 50));
    d.decode(abs(40, 1500));
    d.decode(rel(REL_X, 1));
    let out = d.decode(sync());
    assert_eq!(out[0].cursor, CursorId::Right);
    // A value in neither range keeps the previously active cursor.
    d.decode(abs(40, 9999));
    d.decode(rel(REL_X, 1));
    let out = d.decode(sync());
    assert_eq!(out[0].cursor, CursorId::Right);
}

#[test]
fn abs_axis_range_ignores_unrelated_mt_x() {
    // A stale multi-touch X value must not override the cursor the
    // designated axis established: only the designated axis's own
    // value is remembered.
    let mapping = MappingStrategy::SingleDevice {
        mapping: SingleDeviceMapping::ByAbsAxisRange {
            axis: 40,
            left: ValueRange { lo: 0, hi: 1000 },
            right: ValueRange { lo: 1001, hi: 2000 },
        },
    };
    let mut d = Decoder::new(mapping, Scale::new(1, 50));
    d.decode(abs(ABS_MT_POSITION_X, 1500));
    d.decode(abs(40, 500));
    d.decode(rel(REL_X, 2));
    let out = d.decode(sync());
    assert_eq!(out.len(), 1);
    assert_eq!(out[0].cursor, CursorId::Left);
    assert_eq!(out[0].dx_num, 2 * 50);
    assert_eq!(d.active_cursor, CursorId::Left);
}

#[test]
fn abs_axis_range_left_sticks_across_unrelated_events() {
    // A value inside the left range keeps routing to Left however many
    // unrelated events arrive before the next designated-axis report.
    let mapping = MappingStrategy::SingleDevice {
        mapping: SingleDeviceMapping::ByAbsAxisRange {
            axis: 40,
            left: ValueRange { lo: 0, hi: 1000 },
            right: ValueRange { lo: 1001, hi: 2000 },
        },
    };
    let mut d = Decoder::new(mapping, Scale::new(1, 50));
    d.decode(abs(40, 500));
    d.decode(key(BTN_LEFT, 1));
    d.decode(rel(REL_X, 1));
    d.decode(rel(REL_WHEEL, 2));
    let out = d.decode(sync());
    assert_eq!(out.len(), 1);
    assert_eq!(out[0].cursor, CursorId::Left);
    d.decode(rel(REL_Y, 3));
    let out = d.decode(sync());
    assert_eq!(out.len(), 1);
    assert_eq!(out[0].cursor, CursorId::Left);
    // The next designated-axis value in the right range switches over.
    d.decode(abs(40, 1500));
    d.decode(rel(REL_X, 1));
    let out = d.decode(sync());
    assert_eq!(out[0].cursor, CursorId::Right);
}

#[test]
fn event_code_range_routes_by_code() {
    let mapping = MappingStrategy::SingleDevice {
        mapping: SingleDeviceMapping::ByEventCodeRange {
            left: ValueRange { lo: 0, hi: 0 },
            right: ValueRange { lo: 1, hi: 1 },
        },
    };
    let mut d = Decoder::new(mapping, Scale::new(1, 50));
    d.decode(rel(REL_X, 3)); // code 0: left range
    d.decode(rel(REL_Y, 4)); // code 1: right range
    let out = d.decode(sync());
    assert_eq!(out.len(), 2);
    assert_eq!(out[0].cursor, CursorId::Left);
    assert_eq!(out[0].dx_num, 3 * 50);
    assert_eq!(out[1].cursor, CursorId::Right);
    assert_eq!(out[1].dy_num, 4 * 50);
}

#[test]
fn tracking_id_parity_sets_active_cursor() {
    let mapping = MappingStrategy::SingleDevice {
        mapping: SingleDeviceMapping::ByTrackingIdParity,
    };
    let mut d = Decoder::new(mapping, Scale::new(1, 50));
    d.decode(abs(ABS_MT_TRACKING_ID, 4));
    assert_eq!(d.active_cursor, CursorId::Left);
    d.decode(abs(ABS_MT_SLOT, 1));
    d.decode(abs(ABS_MT_TRACKING_ID, 7));
    assert_eq!(d.active_cursor, CursorId::Right);
}

#[test]
fn multi_touch_two_contacts_split_left_right() {
    // Two concurrent tracking ids: the first binds Left, the second
    // Right; a third concurrent id is never bound.
    let mut d = Decoder::new(
        MappingStrategy::SingleDevice { mapping: SingleDeviceMapping::Unknown },
        Scale::new(1, 50),
    );
    d.decode(abs(ABS_MT_SLOT, 0));
    d.decode(abs(ABS_MT_TRACKING_ID, 4));
    d.decode(abs(ABS_MT_SLOT, 1));
    d.decode(abs(ABS_MT_TRACKING_ID, 9));
    assert_eq!(d.mt_left_tracking, Some(4));
    assert_eq!(d.mt_right_tracking, Some(9));
    assert_eq!(d.mt_slots[0].cursor, Some(CursorId::Left));
    assert_eq!(d.mt_slots[1].cursor, Some(CursorId::Right));
    d.decode(abs(ABS_MT_SLOT, 2));
    d.decode(abs(ABS_MT_TRACKING_ID, 11));
    assert_eq!(d.mt_left_tracking, Some(4));
    assert_eq!(d.mt_right_tracking, Some(9));
    assert_eq!(d.mt_slots[2].cursor, None);
    // Releasing the Left-bound id frees Left for the next allocation.
    d.decode(abs(ABS_MT_SLOT, 0));
    d.decode(abs(ABS_MT_TRACKING_ID, -1));
    assert_eq!(d.mt_left_tracking, None);
    d.decode(abs(ABS_MT_SLOT, 2));
    d.decode(abs(ABS_MT_TRACKING_ID, 13));
    assert_eq!(d.mt_left_tracking, Some(13));
    assert_eq!(d.mt_slots[2].cursor, Some(CursorId::Left));
}

#[test]
fn multi_touch_scenario_delta_and_release() {
    // Slot 0 gets tracking id 7 (assigned Left) at (100, 200); the next
    // report moves it to (110, 205); the sync emits the scaled delta;
    // releasing the id frees Left for reuse.
    let mut d = Decoder::new(
        MappingStrategy::SingleDevice { mapping: SingleDeviceMapping::Unknown },
        Scale::new(1, 50),
    );
    d.decode(abs(ABS_MT_SLOT, 0));
    d.decode(abs(ABS_MT_TRACKING_ID, 7));
    d.decode(abs(ABS_MT_POSITION_X, 100));
    d.decode(abs(ABS_MT_POSITION_Y, 200));
    assert!(d.decode(sync()).is_empty());
    d.decode(abs(ABS_MT_POSITION_X, 110));
    d.decode(abs(ABS_MT_POSITION_Y, 205));
    let out = d.decode(sync());
    assert_eq!(out.len(), 1);
    assert_eq!(out[0].cursor, CursorId::Left);
    assert_eq!(out[0].dx_num, 10);
    assert_eq!(out[0].dy_num, 5);
    assert!((out[0].dx_num as f32 / 50.0 - 10.0 * 0.02).abs() < 1e-6);
    assert!((out[0].dy_num as f32 / 50.0 - 5.0 * 0.02).abs() < 1e-6);
    d.decode(abs(ABS_MT_TRACKING_ID, -1));
    assert_eq!(d.mt_left_tracking, None);
    d.decode(abs(ABS_MT_TRACKING_ID, 7));
    assert_eq!(d.mt_left_tracking, Some(7));
    assert_eq!(d.mt_slots[0].cursor, Some(CursorId::Left));
}

#[test]
fn button_press_then_release() {
    // Key-down then sync emits (Left, true); key-up then sync emits
    // (Left, false); CursorState tracks membership accordingly.
    let mut d = left_decoder();
    let mut state = CursorState::new(CursorId::Left);
    d.decode(key(BTN_LEFT, 1));
    let out = d.decode(sync());
    assert_eq!(out.len(), 1);
    assert_eq!(out[0].button, Some((Button::Left, true)));
    state.apply(out[0]);
    assert!(state.buttons.contains(Button::Left));
    d.decode(key(BTN_LEFT, 0));
    let out = d.decode(sync());
    assert_eq!(out.len(), 1);
    assert_eq!(out[0].button, Some((Button::Left, false)));
    state.apply(out[0]);
    assert!(!state.buttons.contains(Button::Left));
}

#[test]
fn last_button_transition_wins_within_sync_window() {
    let mut d = left_decoder();
    d.decode(key(BTN_RIGHT, 1));
    d.decode(key(BTN_MIDDLE, 1));
    let out = d.decode(sync());
    assert_eq!(out.len(), 1);
    assert_eq!(out[0].button, Some((Button::Middle, true)));
}

#[test]
fn unknown_codes_are_ignored() {
    let mut d = left_decoder();
    d.decode(rel(99, 5));
    d.decode(key(1, 1)); // not a pointer button
    d.decode(abs(99, 5));
    d.decode(RawEvent { kind: RawEventKind::Other, code: 0, value: 1 });
    assert!(d.decode(sync()).is_empty());
}

#[test]
fn device_per_cursor_ignores_heuristics() {
    // A fixed-cursor device routes everything to its cursor, whatever
    // the axis values or codes look like.
    let mut d = Decoder::new(
        MappingStrategy::DevicePerCursor { cursor: CursorId::Right },
        Scale::new(1, 50),
    );
    d.decode(abs(40, 500));
    d.decode(abs(ABS_MT_POSITION_X, 3));
    d.decode(rel(REL_X, 1));
    d.decode(key(BTN_LEFT, 1));
    let out = d.decode(sync());
    assert_eq!(out.len(), 1);
    assert_eq!(out[0].cursor, CursorId::Right);
}

#[test]
fn cursor_state_accumulates_position() {
    let mut state = CursorState::new(CursorId::Left);
    let mut d = left_decoder();
    d.decode(rel(REL_X, 3));
    d.decode(rel(REL_Y, 1));
    let out = d.decode(sync());
    state.apply(out[0]);
    d.decode(rel(REL_X, -1));
    d.decode(rel(REL_Y, 2));
    let out = d.decode(sync());
    state.apply(out[0]);
    assert_eq!(state.x_num, 2 * 50);
    assert_eq!(state.y_num, 3 * 50);
}

#[test]
fn cursor_state_saturates_instead_of_wrapping() {
    let mut state = CursorState::new(CursorId::Left);
    let ev = dualmouse::cursor::CursorEvent {
        cursor: CursorId::Left,
        dx_num: i64::MAX,
        dy_num: i64::MIN,
        wheel: 0,
        button: None,
    };
    state.apply(ev);
    state.apply(ev);
    assert_eq!(state.x_num, i64::MAX);
    assert_eq!(state.y_num, i64::MIN);
}

#[test]
fn held_buttons_listed_in_order() {
    let mut state = CursorState::new(CursorId::Right);
    state.buttons.insert(Button::Middle);
    state.buttons.insert(Button::Left);
    assert_eq!(state.buttons.held(), vec![Button::Left, Button::Middle]);
    state.buttons.insert(Button::Right);
    assert_eq!(
        state.buttons.held(),
        vec![Button::Left, Button::Right, Button::Middle]
    );
    state.buttons.remove(Button::Left);
    assert_eq!(state.buttons.held(), vec![Button::Right, Button::Middle]);
}

#[test]
fn scale_rejects_non_positive_values() {
    let s = Scale::new(0, 50);
    assert_eq!((s.num, s.den), (1, 50));
    let s = Scale::new(-3, 50);
    assert_eq!((s.num, s.den), (1, 50));
    let s = Scale::new(1, 0);
    assert_eq!((s.num, s.den), (1, 50));
    let s = Scale::new(3, 100);
    assert_eq!((s.num, s.den), (3, 100));
}

#[test]
fn map_button_known_and_unknown_codes() {
    assert_eq!(dualmouse::events::map_button(BTN_LEFT), Some(Button::Left));
    assert_eq!(dualmouse::events::map_button(BTN_RIGHT), Some(Button::Right));
    assert_eq!(dualmouse::events::map_button(BTN_MIDDLE), Some(Button::Middle));
    assert_eq!(dualmouse::events::map_button(30), None);
}
