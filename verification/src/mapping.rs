//! Cursor-assignment strategies: how one raw event is attributed to the
//! Left or the Right cursor.

use vstd::prelude::*;

use crate::cursor::CursorId;
use crate::events::{RawEvent, RawEventKind, ABS_MT_TRACKING_ID};

verus! {

/// An inclusive range of raw axis values or event codes.
#[derive(Clone, Copy, Debug, PartialEq, Eq, Structural)]
pub struct ValueRange {
    pub lo: i32,
    pub hi: i32,
}

impl ValueRange {
    /// Membership of a value in the inclusive range.
    pub open spec fn spec_contains(self, v: int) -> bool {
        self.lo <= v <= self.hi
    }

    /// Whether `v` lies in the inclusive range.
    pub fn contains(&self, v: i32) -> (r: bool)
        ensures
            r == self.spec_contains(v as int),
    {
        self.lo <= v && v <= self.hi
    }
}

/// The disambiguation rule used when one physical device carries both
/// cursors' contacts.
#[derive(Clone, Copy, Debug, PartialEq, Eq, Structural)]
pub enum SingleDeviceMapping {
    /// No rule established yet; events fall back to the last active cursor.
    Unknown,
    /// A designated absolute axis's value selects the cursor when it falls
    /// in one of two disjoint inclusive ranges.
    ByAbsAxisRange { axis: u16, left: ValueRange, right: ValueRange },
    /// The raw hardware event code selects the cursor.
    ByEventCodeRange { left: ValueRange, right: ValueRange },
    /// Even multi-touch tracking ids map to Left, odd ones to Right.
    ByTrackingIdParity,
}

/// The top-level assignment policy, fixed at decoder construction.
#[derive(Clone, Copy, Debug, PartialEq, Eq, Structural)]
pub enum MappingStrategy {
    /// Every event from this device belongs to one fixed cursor.
    DevicePerCursor { cursor: CursorId },
    /// One device stream carries both cursors; a sub-rule splits it.
    SingleDevice { mapping: SingleDeviceMapping },
}

/// The cursor a single-device rule positively selects for one event, if
/// any. `last_axis_value` is the most recent value reported on a
/// `ByAbsAxisRange` rule's designated axis; that rule classifies it
/// again to resolve events that are not themselves reports of the
/// designated axis, so the cursor the axis last determined stays in
/// charge between axis reports.
pub open spec fn spec_cursor_from_single_mapping(
    mapping: SingleDeviceMapping,
    event: RawEvent,
    last_axis_value: Option<i32>,
) -> Option<CursorId> {
    match mapping {
        SingleDeviceMapping::Unknown => Option::None,
        SingleDeviceMapping::ByTrackingIdParity => {
            if event.kind == RawEventKind::AbsAxis && event.code == ABS_MT_TRACKING_ID {
                if event.value % 2 == 0 {
                    Option::Some(CursorId::Left)
                } else {
                    Option::Some(CursorId::Right)
                }
            } else {
                Option::None
            }
        },
        SingleDeviceMapping::ByEventCodeRange { left, right } => {
            if left.spec_contains(event.code as int) {
                Option::Some(CursorId::Left)
            } else if right.spec_contains(event.code as int) {
                Option::Some(CursorId::Right)
            } else {
                Option::None
            }
        },
        SingleDeviceMapping::ByAbsAxisRange { axis, left, right } => {
            if event.kind == RawEventKind::AbsAxis && event.code == axis {
                if left.spec_contains(event.value as int) {
                    Option::Some(CursorId::Left)
                } else if right.spec_contains(event.value as int) {
                    Option::Some(CursorId::Right)
                } else {
                    Option::None
                }
            } else {
                match last_axis_value {
                    Option::Some(value) => {
                        if left.spec_contains(value as int) {
                            Option::Some(CursorId::Left)
                        } else if right.spec_contains(value as int) {
                            Option::Some(CursorId::Right)
                        } else {
                            Option::None
                        }
                    },
                    Option::None => Option::None,
                }
            }
        },
    }
}

/// Evaluates a single-device rule on one event: the cursor the rule
/// positively selects, or nothing when no rule matches.
pub fn cursor_from_single_mapping(
    mapping: &SingleDeviceMapping,
    event: &RawEvent,
    last_axis_value: Option<i32>,
) -> (r: Option<CursorId>)
    ensures
        r == spec_cursor_from_single_mapping(*mapping, *event, last_axis_value),
{
    match mapping {
        SingleDeviceMapping::Unknown => Option::None,
        SingleDeviceMapping::ByTrackingIdParity => {
            if event.kind == RawEventKind::AbsAxis && event.code == ABS_MT_TRACKING_ID {
                if event.value % 2 == 0 {
                    Option::Some(CursorId::Left)
                } else {
                    Option::Some(CursorId::Right)
                }
            } else {
                Option::None
            }
        },
        SingleDeviceMapping::ByEventCodeRange { left, right } => {
            if left.contains(event.code as i32) {
                Option::Some(CursorId::Left)
            } else if right.contains(event.code as i32) {
                Option::Some(CursorId::Right)
            } else {
                Option::None
            }
        },
        SingleDeviceMapping::ByAbsAxisRange { axis, left, right } => {
            if event.kind == RawEventKind::AbsAxis && event.code == *axis {
                if left.contains(event.value) {
                    Option::Some(CursorId::Left)
                } else if right.contains(event.value) {
                    Option::Some(CursorId::Right)
                } else {
                    Option::None
                }
            } else {
                match last_axis_value {
                    Option::Some(value) => {
                        if left.contains(value) {
                            Option::Some(CursorId::Left)
                        } else if right.contains(value) {
                            Option::Some(CursorId::Right)
                        } else {
                            Option::None
                        }
                    },
                    Option::None => Option::None,
                }
            }
        },
    }
}

} // verus!
