//! Device-candidate filtering: which capability sets look pointer-like,
//! and the name-based cursor hint.
//!
//! Enumerating device nodes and probing their capabilities is the
//! caller's business; the caller reduces each probe to a
//! [`DeviceCapabilities`] record of plain flags and hands it here.

use vstd::prelude::*;
use vstd::string::StringSliceAdditionalSpecFns;

use crate::cursor::CursorId;

verus! {

/// The capability flags of one candidate device, as reported by its
/// driver.
#[derive(Clone, Copy, Debug, PartialEq, Eq, Structural)]
pub struct DeviceCapabilities {
    /// The device reports relative-axis events at all.
    pub has_relative_events: bool,
    /// The device reports absolute-axis events at all.
    pub has_absolute_events: bool,
    pub has_rel_x: bool,
    pub has_rel_y: bool,
    pub has_abs_x: bool,
    pub has_abs_y: bool,
    pub has_mt_position_x: bool,
    pub has_mt_position_y: bool,
}

/// A device is pointer-like when it reports relative or absolute axes,
/// and carries a relative X/Y pair, a multi-touch X/Y pair, or a plain
/// absolute X/Y pair.
pub open spec fn spec_pointer_like(caps: DeviceCapabilities) -> bool {
    &&& (caps.has_relative_events || caps.has_absolute_events)
    &&& {
        ||| (caps.has_rel_x && caps.has_rel_y)
        ||| (caps.has_mt_position_x && caps.has_mt_position_y)
        ||| (caps.has_abs_x && caps.has_abs_y)
    }
}

/// Decides whether a device's capabilities look pointer-like; only such
/// devices reach a decoder.
pub fn looks_like_pointer_surface(caps: &DeviceCapabilities) -> (r: bool)
    ensures
        r == spec_pointer_like(*caps),
{
    let has_axes = caps.has_relative_events || caps.has_absolute_events;
    let has_rel_xy = caps.has_rel_x && caps.has_rel_y;
    let has_mt_xy = caps.has_mt_position_x && caps.has_mt_position_y;
    let has_abs_xy = caps.has_abs_x && caps.has_abs_y;
    has_axes && (has_rel_xy || has_mt_xy || has_abs_xy)
}

/// An ASCII upper-case byte folded to lower case; all other bytes are
/// unchanged.
pub open spec fn spec_lower_byte(b: u8) -> u8 {
    if 65 <= b <= 90 {
        (b + 32) as u8
    } else {
        b
    }
}

/// The pattern (already lower case) occurs at offset `i` of `s`,
/// comparing case-insensitively.
pub open spec fn spec_matches_at(s: Seq<u8>, pat: Seq<u8>, i: int) -> bool {
    forall|j: int| 0 <= j < pat.len() ==> spec_lower_byte(s[i + j]) == pat[j]
}

/// The pattern (already lower case) occurs somewhere in `s`, comparing
/// case-insensitively.
pub open spec fn spec_contains_ci(s: Seq<u8>, pat: Seq<u8>) -> bool {
    exists|i: int| 0 <= i && i + pat.len() <= s.len() && spec_matches_at(s, pat, i)
}

/// The bytes of "left".
pub open spec fn spec_left_pattern() -> Seq<u8> {
    seq![108u8, 101u8, 102u8, 116u8]
}

/// The bytes of "right".
pub open spec fn spec_right_pattern() -> Seq<u8> {
    seq![114u8, 105u8, 103u8, 104u8, 116u8]
}

/// Folds an ASCII upper-case byte to lower case.
fn lower_byte(b: u8) -> (r: u8)
    ensures
        r == spec_lower_byte(b),
{
    if 65 <= b && b <= 90 {
        b + 32
    } else {
        b
    }
}

/// Case-insensitive search for a lower-case byte pattern.
fn contains_ci(hay: &[u8], pat: &Vec<u8>) -> (r: bool)
    ensures
        r == spec_contains_ci(hay@, pat@),
{
    let hay_len: usize = hay.len();
    let pat_len: usize = pat.len();
    if pat_len > hay_len {
        return false;
    }
    let mut i: usize = 0;
    while i <= hay_len - pat_len
        invariant
            hay_len == hay@.len(),
            pat_len == pat@.len(),
            pat@.len() <= hay@.len(),
            i <= hay@.len() - pat@.len() + 1,
            forall|k: int| 0 <= k < i ==> !spec_matches_at(hay@, pat@, k),
        decreases hay@.len() - pat@.len() + 1 - i,
    {
        let mut j: usize = 0;
        let mut mismatch = false;
        while j < pat.len() && !mismatch
            invariant
                hay_len == hay@.len(),
                pat_len == pat@.len(),
                j <= pat@.len(),
                i + pat@.len() <= hay@.len(),
                hay@.len() <= usize::MAX,
                !mismatch ==> forall|m: int| 0 <= m < j ==> spec_lower_byte(hay@[i + m]) == pat@[m],
                mismatch ==> !spec_matches_at(hay@, pat@, i as int),
            decreases pat@.len() - j + (if mismatch { 0int } else { 1int }),
        {
            if lower_byte(hay[i + j]) != pat[j] {
                mismatch = true;
            } else {
                j = j + 1;
            }
        }
        if !mismatch {
            proof {
                assert(spec_matches_at(hay@, pat@, i as int));
            }
            return true;
        }
        i = i + 1;
    }
    proof {
        assert(forall|k: int| 0 <= k && k + pat@.len() <= hay@.len() ==> !spec_matches_at(
            hay@,
            pat@,
            k,
        ));
    }
    false
}

/// Guesses a cursor hint from a device's display name: a name carrying
/// "left" (ASCII, any case) hints Left; otherwise one carrying "right"
/// hints Right; otherwise there is no hint.
pub fn guess_cursor_hint(name: &str) -> (r: Option<CursorId>)
    ensures
        r == (if spec_contains_ci(name.spec_bytes(), spec_left_pattern()) {
            Option::Some(CursorId::Left)
        } else if spec_contains_ci(name.spec_bytes(), spec_right_pattern()) {
            Option::Some(CursorId::Right)
        } else {
            Option::None::<CursorId>
        }),
{
    let bytes = name.as_bytes();
    let mut left_pat: Vec<u8> = Vec::new();
    left_pat.push(108);
    left_pat.push(101);
    left_pat.push(102);
    left_pat.push(116);
    proof {
        assert(left_pat@ =~= spec_left_pattern());
    }
    if contains_ci(bytes, &left_pat) {
        return Option::Some(CursorId::Left);
    }
    let mut right_pat: Vec<u8> = Vec::new();
    right_pat.push(114);
    right_pat.push(105);
    right_pat.push(103);
    right_pat.push(104);
    right_pat.push(116);
    proof {
        assert(right_pat@ =~= spec_right_pattern());
    }
    if contains_ci(bytes, &right_pat) {
        return Option::Some(CursorId::Right);
    }
    Option::None
}

} // verus!
