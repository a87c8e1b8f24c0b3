//! The raw hardware report, reduced to the plain values the decoder
//! reads: an event kind, a 16-bit code, and a 32-bit value.
//!
//! The code constants are the input-subsystem numbers for the axes and
//! buttons the decoder understands.

use vstd::prelude::*;

use crate::cursor::Button;

verus! {

/// Code of the relative X-motion axis.
pub const REL_X: u16 = 0;

/// Code of the relative Y-motion axis.
pub const REL_Y: u16 = 1;

/// Code of the wheel axis.
pub const REL_WHEEL: u16 = 8;

/// Code of the plain absolute X axis.
pub const ABS_X: u16 = 0;

/// Code of the plain absolute Y axis.
pub const ABS_Y: u16 = 1;

/// Code of the multi-touch slot-select axis.
pub const ABS_MT_SLOT: u16 = 47;

/// Code of the multi-touch X-position axis.
pub const ABS_MT_POSITION_X: u16 = 53;

/// Code of the multi-touch Y-position axis.
pub const ABS_MT_POSITION_Y: u16 = 54;

/// Code of the multi-touch tracking-id axis.
pub const ABS_MT_TRACKING_ID: u16 = 57;

/// Key code of the left pointer button.
pub const BTN_LEFT: u16 = 272;

/// Key code of the right pointer button.
pub const BTN_RIGHT: u16 = 273;

/// Key code of the middle pointer button.
pub const BTN_MIDDLE: u16 = 274;

/// The four report kinds the decoder distinguishes; anything else is
/// carried as `Other` and ignored.
#[derive(Clone, Copy, Debug, PartialEq, Eq, Structural)]
pub enum RawEventKind {
    RelAxis,
    AbsAxis,
    Key,
    Sync,
    Other,
}

/// One raw hardware report from one device.
#[derive(Clone, Copy, Debug, PartialEq, Eq, Structural)]
pub struct RawEvent {
    pub kind: RawEventKind,
    pub code: u16,
    pub value: i32,
}

/// The pointer button a key code stands for, if any.
pub open spec fn spec_map_button(code: u16) -> Option<Button> {
    if code == BTN_LEFT {
        Option::Some(Button::Left)
    } else if code == BTN_RIGHT {
        Option::Some(Button::Right)
    } else if code == BTN_MIDDLE {
        Option::Some(Button::Middle)
    } else {
        Option::None
    }
}

/// Maps a key code to the pointer button it stands for; unknown codes
/// map to nothing.
pub fn map_button(code: u16) -> (r: Option<Button>)
    ensures
        r == spec_map_button(code),
{
    if code == BTN_LEFT {
        Option::Some(Button::Left)
    } else if code == BTN_RIGHT {
        Option::Some(Button::Right)
    } else if code == BTN_MIDDLE {
        Option::Some(Button::Middle)
    } else {
        Option::None
    }
}

} // verus!
