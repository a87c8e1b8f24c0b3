use dualmouse::arith::Scale;
use dualmouse::cursor::CursorId;
use dualmouse::daemon::{
    assign_cursor_hints, log_device_capabilities, DeviceSource, EvdevDaemon,
};
use dualmouse::discover::{guess_cursor_hint, looks_like_pointer_surface, DeviceCapabilities};
use dualmouse::events::{RawEvent, RawEventKind, REL_X};
use dualmouse::mapping::MappingStrategy;

fn source(name: &str, hint: Option<CursorId>) -> DeviceSource {
    DeviceSource {
        path: format!("/dev/input/{}", name),
        name: name.to_string(),
        cursor_hint: hint,
    }
}

fn caps_none() -> DeviceCapabilities {
    DeviceCapabilities {
        has_relative_events: false,
        has_absolute_events: false,
        has_rel_x: false,
        has_rel_y: false,
        has_abs_x: false,
        has_abs_y: false,
        has_mt_position_x: false,
        has_mt_position_y: false,
    }
}

#[test]
fn hints_assigned_to_unhinted_pair() {
    let mut sources = vec![source("a", None), source("b", None)];
    assign_cursor_hints(&mut sources);
    assert_eq!(sources[0].cursor_hint, Some(CursorId::Left));
    assert_eq!(sources[1].cursor_hint, Some(CursorId::Right));
}

#[test]
fn hint_completed_from_partner() {
    let mut sources = vec![source("a", Some(CursorId::Left)), source("b", None)];
    assign_cursor_hints(&mut sources);
    assert_eq!(sources[1].cursor_hint, Some(CursorId::Right));

    let mut sources = vec![source("a", None), source("b", Some(CursorId::Left))];
    assign_cursor_hints(&mut sources);
    assert_eq!(sources[0].cursor_hint, Some(CursorId::Right));
}

#[test]
fn no_hinting_outside_exactly_two_devices() {
    let mut one = vec![source("a", None)];
    assign_cursor_hints(&mut one);
    assert_eq!(one[0].cursor_hint, None);

    let mut three = vec![source("a", None), source("b", None), source("c", None)];
    assign_cursor_hints(&mut three);
    assert!(three.iter().all(|s| s.cursor_hint.is_none()));
}

#[test]
fn both_hinted_pair_left_alone() {
    let mut sources = vec![
        source("a", Some(CursorId::Right)),
        source("b", Some(CursorId::Left)),
    ];
    assign_cursor_hints(&mut sources);
    assert_eq!(sources[0].cursor_hint, Some(CursorId::Right));
    assert_eq!(sources[1].cursor_hint, Some(CursorId::Left));
}

#[test]
fn daemon_builds_decoder_per_source() {
    let sources = vec![source("a", None), source("b", None)];
    let daemon = EvdevDaemon::new(sources, Scale::new(1, 50));
    assert_eq!(daemon.device_count(), 2);
    assert!(matches!(
        daemon.devices[0].decoder.mapping,
        MappingStrategy::DevicePerCursor { cursor: CursorId::Left }
    ));
    assert!(matches!(
        daemon.devices[1].decoder.mapping,
        MappingStrategy::DevicePerCursor { cursor: CursorId::Right }
    ));
}

#[test]
fn daemon_feed_routes_through_device_decoder() {
    let sources = vec![source("a", None), source("b", None)];
    let mut daemon = EvdevDaemon::new(sources, Scale::new(1, 50));
    let events = vec![
        RawEvent { kind: RawEventKind::RelAxis, code: REL_X, value: 5 },
        RawEvent { kind: RawEventKind::Sync, code: 0, value: 0 },
    ];
    let out = daemon.feed(1, &events);
    assert_eq!(out.len(), 1);
    assert_eq!(out[0].cursor, CursorId::Right);
    assert_eq!(out[0].dx_num, 5 * 50);
    // The other device's decoder is untouched.
    let out = daemon.feed(0, &vec![RawEvent { kind: RawEventKind::Sync, code: 0, value: 0 }]);
    assert!(out.is_empty());
}

#[test]
fn guess_hint_from_name() {
    assert_eq!(guess_cursor_hint("Left Trackpad"), Some(CursorId::Left));
    assert_eq!(guess_cursor_hint("RIGHT pad"), Some(CursorId::Right));
    assert_eq!(guess_cursor_hint("lefty"), Some(CursorId::Left));
    assert_eq!(guess_cursor_hint("Touchscreen"), None);
    assert_eq!(guess_cursor_hint(""), None);
    // "left" wins over "right" when both occur.
    assert_eq!(guess_cursor_hint("right-left"), Some(CursorId::Left));
}

#[test]
fn pointer_surface_filter() {
    let mut caps = caps_none();
    assert!(!looks_like_pointer_surface(&caps));
    caps.has_relative_events = true;
    caps.has_rel_x = true;
    assert!(!looks_like_pointer_surface(&caps));
    caps.has_rel_y = true;
    assert!(looks_like_pointer_surface(&caps));

    let mut caps = caps_none();
    caps.has_absolute_events = true;
    caps.has_mt_position_x = true;
    caps.has_mt_position_y = true;
    assert!(looks_like_pointer_surface(&caps));

    let mut caps = caps_none();
    // An X/Y pair without any axis event class is filtered out.
    caps.has_abs_x = true;
    caps.has_abs_y = true;
    assert!(!looks_like_pointer_surface(&caps));
    caps.has_absolute_events = true;
    assert!(looks_like_pointer_surface(&caps));
}

#[test]
fn capability_line_lists_flags() {
    let src = source("padL", None);
    let mut caps = caps_none();
    caps.has_relative_events = true;
    caps.has_rel_x = true;
    caps.has_rel_y = true;
    let line = log_device_capabilities(&src, &caps);
    assert_eq!(line, "capabilities of padL: relative rel_x rel_y");
    let empty = log_device_capabilities(&src, &caps_none());
    assert_eq!(empty, "capabilities of padL:");
}
