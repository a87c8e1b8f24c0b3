//! The per-device decoder: a state machine that consumes raw axis,
//! button, and synchronization reports from one device and emits batched
//! cursor events at each synchronization boundary.
//!
//! The decoder's behaviour is specified by a ghost transition function
//! over [`DecoderModel`]: `decode` ensures that the new state is
//! `spec_step` of the old state and the event, and that the returned
//! batch is `spec_emit` of the same.

use vstd::prelude::*;

use crate::arith::{mul_scale, sat_add64, sat_add_i64, Scale};
use crate::cursor::{Button, CursorEvent, CursorId};
use crate::events::{
    RawEvent, RawEventKind, spec_map_button, map_button,
    REL_X, REL_Y, REL_WHEEL,
    ABS_X, ABS_Y, ABS_MT_SLOT, ABS_MT_POSITION_X, ABS_MT_POSITION_Y, ABS_MT_TRACKING_ID,
};
use crate::mapping::{
    MappingStrategy, SingleDeviceMapping, cursor_from_single_mapping,
    spec_cursor_from_single_mapping,
};

verus! {

/// Motion accumulated for one cursor between two synchronization
/// events: rational X/Y numerators, wheel ticks, and at most one
/// pending button transition.
#[derive(Clone, Copy, Debug, PartialEq, Eq)]
pub struct PendingMotion {
    pub dx_num: i64,
    pub dy_num: i64,
    pub wheel: i64,
    pub button: Option<(Button, bool)>,
}

impl PendingMotion {
    /// No motion, no wheel, no transition.
    pub open spec fn spec_empty() -> PendingMotion {
        PendingMotion { dx_num: 0, dy_num: 0, wheel: 0, button: Option::None }
    }

    /// A fresh, empty accumulator.
    pub fn empty() -> (p: PendingMotion)
        ensures
            p == PendingMotion::spec_empty(),
    {
        PendingMotion { dx_num: 0, dy_num: 0, wheel: 0, button: Option::None }
    }
}

/// Deferred-completion position tracking for a simple absolute device:
/// the last resolved sample and the current, possibly half-reported one.
#[derive(Clone, Copy, Debug, PartialEq, Eq)]
pub struct AbsState {
    pub last_x: Option<i32>,
    pub last_y: Option<i32>,
    pub cur_x: Option<i32>,
    pub cur_y: Option<i32>,
}

impl AbsState {
    /// No sample seen yet.
    pub open spec fn spec_empty() -> AbsState {
        AbsState { last_x: Option::None, last_y: Option::None, cur_x: Option::None, cur_y: Option::None }
    }

    /// A fresh, empty tracking state.
    pub fn empty() -> (s: AbsState)
        ensures
            s == AbsState::spec_empty(),
    {
        AbsState { last_x: Option::None, last_y: Option::None, cur_x: Option::None, cur_y: Option::None }
    }
}

/// One multi-touch slot: the contact's tracking id, the cursor the
/// contact is bound to, and the same last/current position pairing as
/// [`AbsState`].
#[derive(Clone, Copy, Debug, PartialEq, Eq)]
pub struct MtSlotState {
    pub tracking_id: Option<i32>,
    pub cursor: Option<CursorId>,
    pub last_x: Option<i32>,
    pub last_y: Option<i32>,
    pub cur_x: Option<i32>,
    pub cur_y: Option<i32>,
}

impl MtSlotState {
    /// A released slot: no identity, no binding, no position history.
    pub open spec fn spec_empty() -> MtSlotState {
        MtSlotState {
            tracking_id: Option::None,
            cursor: Option::None,
            last_x: Option::None,
            last_y: Option::None,
            cur_x: Option::None,
            cur_y: Option::None,
        }
    }

    /// A fresh, empty slot.
    pub fn empty() -> (s: MtSlotState)
        ensures
            s == MtSlotState::spec_empty(),
    {
        MtSlotState {
            tracking_id: Option::None,
            cursor: Option::None,
            last_x: Option::None,
            last_y: Option::None,
            cur_x: Option::None,
            cur_y: Option::None,
        }
    }
}

/// The mathematical value of a [`Decoder`]: the same fields, with the
/// slot table as a sequence.
#[verifier::ext_equal]
pub struct DecoderModel {
    pub mapping: MappingStrategy,
    pub pending_left: PendingMotion,
    pub pending_right: PendingMotion,
    pub abs_left: AbsState,
    pub abs_right: AbsState,
    pub mt_slots: Seq<MtSlotState>,
    pub mt_cur_slot: i32,
    pub mt_left_tracking: Option<i32>,
    pub mt_right_tracking: Option<i32>,
    pub active_cursor: CursorId,
    pub warned_unknown: bool,
    pub last_axis_value: Option<i32>,
    pub scale: Scale,
}

impl DecoderModel {
    /// Well-formedness: the scale is positive and bounded, so every
    /// per-report product fits in an i64.
    pub open spec fn wf(self) -> bool {
        self.scale.wf()
    }

    /// The pending accumulator of one cursor.
    pub open spec fn pending(self, c: CursorId) -> PendingMotion {
        match c {
            CursorId::Left => self.pending_left,
            CursorId::Right => self.pending_right,
        }
    }

    /// The model with one cursor's pending accumulator replaced.
    pub open spec fn with_pending(self, c: CursorId, p: PendingMotion) -> DecoderModel {
        match c {
            CursorId::Left => DecoderModel { pending_left: p, ..self },
            CursorId::Right => DecoderModel { pending_right: p, ..self },
        }
    }

    /// The simple-absolute tracking state of one cursor.
    pub open spec fn abs_state(self, c: CursorId) -> AbsState {
        match c {
            CursorId::Left => self.abs_left,
            CursorId::Right => self.abs_right,
        }
    }

    /// The model with one cursor's simple-absolute state replaced.
    pub open spec fn with_abs_state(self, c: CursorId, st: AbsState) -> DecoderModel {
        match c {
            CursorId::Left => DecoderModel { abs_left: st, ..self },
            CursorId::Right => DecoderModel { abs_right: st, ..self },
        }
    }
}

/// The cursor one event is attributed to, together with the model after
/// the attribution itself (the active cursor follows a positive match;
/// a single-device stream without a rule raises the one-shot warning
/// flag).
pub open spec fn spec_cursor_for(d: DecoderModel, ev: RawEvent) -> (CursorId, DecoderModel) {
    match d.mapping {
        MappingStrategy::DevicePerCursor { cursor } => (cursor, d),
        MappingStrategy::SingleDevice { mapping } => {
            match spec_cursor_from_single_mapping(mapping, ev, d.last_axis_value) {
                Option::Some(c) => (c, DecoderModel { active_cursor: c, ..d }),
                Option::None => {
                    if mapping == SingleDeviceMapping::Unknown && !d.warned_unknown {
                        (d.active_cursor, DecoderModel { warned_unknown: true, ..d })
                    } else {
                        (d.active_cursor, d)
                    }
                },
            }
        },
    }
}

/// Accumulation of one relative-axis report into the owning cursor's
/// pending motion: X and Y sum (in scale-denominator units), the wheel
/// sums in ticks, and unknown axes are ignored.
pub open spec fn spec_apply_rel(d: DecoderModel, c: CursorId, code: u16, value: i32) -> DecoderModel {
    let p = d.pending(c);
    if code == REL_X {
        d.with_pending(c, PendingMotion {
            dx_num: sat_add64(p.dx_num, (value as int * d.scale.den as int) as i64),
            ..p
        })
    } else if code == REL_Y {
        d.with_pending(c, PendingMotion {
            dy_num: sat_add64(p.dy_num, (value as int * d.scale.den as int) as i64),
            ..p
        })
    } else if code == REL_WHEEL {
        d.with_pending(c, PendingMotion { wheel: sat_add64(p.wheel, value as i64), ..p })
    } else {
        d
    }
}

/// Recording of one button transition: a known key code overwrites the
/// owning cursor's pending transition (last write wins); unknown codes
/// are ignored.
pub open spec fn spec_apply_key(d: DecoderModel, c: CursorId, code: u16, value: i32) -> DecoderModel {
    match spec_map_button(code) {
        Option::Some(b) => d.with_pending(c, PendingMotion {
            button: Option::Some((b, value != 0)),
            ..d.pending(c)
        }),
        Option::None => d,
    }
}

/// An axis value inside the configured left (right) range of a
/// `ByAbsAxisRange` rule makes Left (Right) the active cursor; a value
/// in neither range leaves the active cursor unchanged.
pub open spec fn spec_update_mapping_from_abs(d: DecoderModel, code: u16, value: i32) -> DecoderModel {
    match d.mapping {
        MappingStrategy::SingleDevice {
            mapping: SingleDeviceMapping::ByAbsAxisRange { axis, left, right },
        } => {
            if code == axis {
                if left.spec_contains(value as int) {
                    DecoderModel { active_cursor: CursorId::Left, ..d }
                } else if right.spec_contains(value as int) {
                    DecoderModel { active_cursor: CursorId::Right, ..d }
                } else {
                    d
                }
            } else {
                d
            }
        },
        _ => d,
    }
}

/// The slot table grown (with empty slots) until index `i` exists;
/// a table already long enough is unchanged.
pub open spec fn spec_ensure_slots(s: Seq<MtSlotState>, i: int) -> Seq<MtSlotState> {
    if s.len() > i {
        s
    } else {
        s + Seq::new((i + 1 - s.len()) as nat, |j: int| MtSlotState::spec_empty())
    }
}

/// Lookup or stable allocation of a tracking id: an id already bound
/// keeps its cursor; a new id takes whichever cursor is free, Left
/// preferred; with both cursors busy the id is not bound. Returns the
/// binding outcome and the two tracking registers after it.
pub open spec fn spec_assign_tracking(lt: Option<i32>, rt: Option<i32>, tid: i32)
    -> (Option<CursorId>, Option<i32>, Option<i32>) {
    if lt == Option::Some(tid) {
        (Option::Some(CursorId::Left), lt, rt)
    } else if rt == Option::Some(tid) {
        (Option::Some(CursorId::Right), lt, rt)
    } else if lt is None {
        (Option::Some(CursorId::Left), Option::Some(tid), rt)
    } else if rt is None {
        (Option::Some(CursorId::Right), lt, Option::Some(tid))
    } else {
        (Option::None, lt, rt)
    }
}

/// Release of a tracking id: whichever cursor register holds it is
/// freed for the next allocation.
pub open spec fn spec_release_tracking(lt: Option<i32>, rt: Option<i32>, tid: i32)
    -> (Option<i32>, Option<i32>) {
    (
        if lt == Option::Some(tid) { Option::None } else { lt },
        if rt == Option::Some(tid) { Option::None } else { rt },
    )
}

/// Effect of a tracking-id report on the current slot: a negative value
/// releases the slot's identity, binding, and position history; a
/// non-negative value is looked up or allocated, and a fresh binding
/// clears the slot's position history so the next sample seeds it.
/// A current-slot index that is not a valid array index is ignored.
pub open spec fn spec_handle_tracking(d: DecoderModel, value: i32) -> DecoderModel {
    if d.mt_cur_slot < 0 {
        d
    } else {
        let i = d.mt_cur_slot as int;
        let slots = spec_ensure_slots(d.mt_slots, i);
        let slot = slots[i];
        if value < 0 {
            let regs = match slot.tracking_id {
                Option::Some(tid) => spec_release_tracking(d.mt_left_tracking, d.mt_right_tracking, tid),
                Option::None => (d.mt_left_tracking, d.mt_right_tracking),
            };
            DecoderModel {
                mt_slots: slots.update(i, MtSlotState::spec_empty()),
                mt_left_tracking: regs.0,
                mt_right_tracking: regs.1,
                ..d
            }
        } else {
            let outcome = spec_assign_tracking(d.mt_left_tracking, d.mt_right_tracking, value);
            let slot2 = match outcome.0 {
                Option::Some(c) => MtSlotState {
                    tracking_id: Option::Some(value),
                    cursor: Option::Some(c),
                    last_x: Option::None,
                    last_y: Option::None,
                    cur_x: Option::None,
                    cur_y: Option::None,
                },
                Option::None => MtSlotState { tracking_id: Option::Some(value), ..slot },
            };
            DecoderModel {
                mt_slots: slots.update(i, slot2),
                mt_left_tracking: outcome.1,
                mt_right_tracking: outcome.2,
                ..d
            }
        }
    }
}

/// A multi-touch position report stored as the current sample of the
/// current slot; the delta is resolved later, at the sync boundary.
pub open spec fn spec_update_mt_slot_pos(d: DecoderModel, code: u16, value: i32) -> DecoderModel {
    if d.mt_cur_slot < 0 {
        d
    } else {
        let i = d.mt_cur_slot as int;
        let slots = spec_ensure_slots(d.mt_slots, i);
        let slot = slots[i];
        let slot2 = if code == ABS_MT_POSITION_X {
            MtSlotState { cur_x: Option::Some(value), ..slot }
        } else if code == ABS_MT_POSITION_Y {
            MtSlotState { cur_y: Option::Some(value), ..slot }
        } else {
            slot
        };
        DecoderModel { mt_slots: slots.update(i, slot2), ..d }
    }
}

/// A plain absolute position report stored as the current sample of the
/// owning cursor's tracking state.
pub open spec fn spec_update_abs_axis(d: DecoderModel, c: CursorId, code: u16, value: i32) -> DecoderModel {
    let st = d.abs_state(c);
    let st2 = if code == ABS_X {
        AbsState { cur_x: Option::Some(value), ..st }
    } else if code == ABS_Y {
        AbsState { cur_y: Option::Some(value), ..st }
    } else {
        st
    };
    d.with_abs_state(c, st2)
}

/// Routing of an absolute-axis report by axis identity.
pub open spec fn spec_update_abs_position(d: DecoderModel, c: CursorId, code: u16, value: i32) -> DecoderModel {
    if code == ABS_MT_SLOT {
        DecoderModel { mt_cur_slot: value, ..d }
    } else if code == ABS_MT_TRACKING_ID {
        spec_handle_tracking(d, value)
    } else if code == ABS_MT_POSITION_X || code == ABS_MT_POSITION_Y {
        spec_update_mt_slot_pos(d, code, value)
    } else if code == ABS_X || code == ABS_Y {
        spec_update_abs_axis(d, c, code, value)
    } else {
        d
    }
}

/// A report on a `ByAbsAxisRange` rule's designated axis becomes the
/// remembered axis value, so later events of other types still resolve
/// to the cursor this value determines; any other report (or policy)
/// leaves the remembered value alone.
pub open spec fn spec_remember_axis_value(d: DecoderModel, code: u16, value: i32) -> DecoderModel {
    match d.mapping {
        MappingStrategy::SingleDevice {
            mapping: SingleDeviceMapping::ByAbsAxisRange { axis, .. },
        } => {
            if code == axis {
                DecoderModel { last_axis_value: Option::Some(value), ..d }
            } else {
                d
            }
        },
        _ => d,
    }
}

/// Full effect of an absolute-axis report: remember a designated-axis
/// value, re-evaluate the range rule, then track the position.
pub open spec fn spec_abs_step(d: DecoderModel, c: CursorId, code: u16, value: i32) -> DecoderModel {
    let d1 = spec_remember_axis_value(d, code, value);
    let d2 = spec_update_mapping_from_abs(d1, code, value);
    spec_update_abs_position(d2, c, code, value)
}

/// Resolution of one slot at a sync boundary: a bound slot with a
/// complete current sample turns it into a raw-unit delta against the
/// last sample (a first sample only seeds the history and yields no
/// delta); anything else leaves the slot as it is.
pub open spec fn spec_resolve_slot(slot: MtSlotState) -> (MtSlotState, Option<(CursorId, int, int)>) {
    match slot.cursor {
        Option::None => (slot, Option::None),
        Option::Some(c) => {
            match (slot.cur_x, slot.cur_y) {
                (Option::Some(x), Option::Some(y)) => {
                    let settled = MtSlotState {
                        last_x: Option::Some(x),
                        last_y: Option::Some(y),
                        cur_x: Option::None,
                        cur_y: Option::None,
                        ..slot
                    };
                    match (slot.last_x, slot.last_y) {
                        (Option::Some(lx), Option::Some(ly)) => (
                            settled,
                            Option::Some((c, x - lx, y - ly)),
                        ),
                        _ => (settled, Option::None),
                    }
                },
                _ => (slot, Option::None),
            }
        },
    }
}

/// A raw-unit delta scaled and added to one cursor's pending motion.
pub open spec fn spec_add_motion(d: DecoderModel, c: CursorId, ddx: int, ddy: int) -> DecoderModel {
    let p = d.pending(c);
    d.with_pending(c, PendingMotion {
        dx_num: sat_add64(p.dx_num, (ddx * d.scale.num as int) as i64),
        dy_num: sat_add64(p.dy_num, (ddy * d.scale.num as int) as i64),
        ..p
    })
}

/// The model after resolving slots `i`, `i+1`, ... in order: each
/// resolved delta lands in its bound cursor's pending motion.
pub open spec fn spec_mt_from(d: DecoderModel, i: int) -> DecoderModel
    decreases d.mt_slots.len() - i,
{
    if i < 0 || i >= d.mt_slots.len() {
        d
    } else {
        let r = spec_resolve_slot(d.mt_slots[i]);
        let d1 = DecoderModel { mt_slots: d.mt_slots.update(i, r.0), ..d };
        let d2 = match r.1 {
            Option::Some((c, ddx, ddy)) => spec_add_motion(d1, c, ddx, ddy),
            Option::None => d1,
        };
        spec_mt_from(d2, i + 1)
    }
}

/// Resolution of a simple-absolute tracking state at a sync boundary,
/// with the same first-sample-seeds rule as multi-touch slots.
pub open spec fn spec_resolve_abs(st: AbsState) -> (AbsState, int, int) {
    match (st.cur_x, st.cur_y) {
        (Option::Some(x), Option::Some(y)) => {
            let settled = AbsState {
                last_x: Option::Some(x),
                last_y: Option::Some(y),
                cur_x: Option::None,
                cur_y: Option::None,
            };
            match (st.last_x, st.last_y) {
                (Option::Some(lx), Option::Some(ly)) => (settled, x - lx, y - ly),
                _ => (settled, 0, 0),
            }
        },
        _ => (st, 0, 0),
    }
}

/// The per-cursor part of a sync flush: resolve the simple-absolute
/// delta, take the pending motion, and emit one event unless motion,
/// wheel, and button transition are all absent.
pub open spec fn spec_flush_cursor(d: DecoderModel, c: CursorId) -> (DecoderModel, Option<CursorEvent>) {
    let r = spec_resolve_abs(d.abs_state(c));
    let p = d.pending(c);
    let d1 = d.with_abs_state(c, r.0).with_pending(c, PendingMotion::spec_empty());
    let dx = sat_add64(p.dx_num, (r.1 * d.scale.num as int) as i64);
    let dy = sat_add64(p.dy_num, (r.2 * d.scale.num as int) as i64);
    if dx == 0 && dy == 0 && p.wheel == 0 && p.button is None {
        (d1, Option::None)
    } else {
        (d1, Option::Some(CursorEvent { cursor: c, dx_num: dx, dy_num: dy, wheel: p.wheel, button: p.button }))
    }
}

/// A full sync flush: resolve every slot, then flush Left, then Right.
/// The batch lists Left's event (if any) before Right's.
pub open spec fn spec_flush(d: DecoderModel) -> (DecoderModel, Seq<CursorEvent>) {
    let dm = spec_mt_from(d, 0);
    let l = spec_flush_cursor(dm, CursorId::Left);
    let r = spec_flush_cursor(l.0, CursorId::Right);
    let evs_l = match l.1 {
        Option::Some(e) => seq![e],
        Option::None => Seq::empty(),
    };
    let evs_r = match r.1 {
        Option::Some(e) => seq![e],
        Option::None => Seq::empty(),
    };
    (r.0, evs_l + evs_r)
}

/// The decoder state after consuming one raw event.
pub open spec fn spec_step(d: DecoderModel, ev: RawEvent) -> DecoderModel {
    let c = spec_cursor_for(d, ev).0;
    let d1 = spec_cursor_for(d, ev).1;
    match ev.kind {
        RawEventKind::RelAxis => spec_apply_rel(d1, c, ev.code, ev.value),
        RawEventKind::Key => spec_apply_key(d1, c, ev.code, ev.value),
        RawEventKind::AbsAxis => spec_abs_step(d1, c, ev.code, ev.value),
        RawEventKind::Sync => spec_flush(d1).0,
        RawEventKind::Other => d1,
    }
}

/// The batch emitted while consuming one raw event: empty except at a
/// synchronization boundary.
pub open spec fn spec_emit(d: DecoderModel, ev: RawEvent) -> Seq<CursorEvent> {
    if ev.kind == RawEventKind::Sync {
        spec_flush(spec_cursor_for(d, ev).1).1
    } else {
        Seq::empty()
    }
}

/// The decoder state after consuming a whole sequence of raw events in
/// order.
pub open spec fn spec_run(d: DecoderModel, evs: Seq<RawEvent>) -> DecoderModel
    decreases evs.len(),
{
    if evs.len() == 0 {
        d
    } else {
        spec_run(spec_step(d, evs[0]), evs.skip(1))
    }
}

/// Everything emitted while consuming a whole sequence of raw events in
/// order.
pub open spec fn spec_run_emits(d: DecoderModel, evs: Seq<RawEvent>) -> Seq<CursorEvent>
    decreases evs.len(),
{
    if evs.len() == 0 {
        Seq::empty()
    } else {
        spec_emit(d, evs[0]) + spec_run_emits(spec_step(d, evs[0]), evs.skip(1))
    }
}

/// Resolving slots moves motion into the pending accumulators but
/// leaves every other register of the decoder unchanged.
pub proof fn lemma_mt_from_keeps_registers(d: DecoderModel, i: int)
    ensures
        spec_mt_from(d, i).mapping == d.mapping,
        spec_mt_from(d, i).abs_left == d.abs_left,
        spec_mt_from(d, i).abs_right == d.abs_right,
        spec_mt_from(d, i).mt_cur_slot == d.mt_cur_slot,
        spec_mt_from(d, i).mt_left_tracking == d.mt_left_tracking,
        spec_mt_from(d, i).mt_right_tracking == d.mt_right_tracking,
        spec_mt_from(d, i).active_cursor == d.active_cursor,
        spec_mt_from(d, i).warned_unknown == d.warned_unknown,
        spec_mt_from(d, i).last_axis_value == d.last_axis_value,
        spec_mt_from(d, i).scale == d.scale,
        spec_mt_from(d, i).mt_slots.len() == d.mt_slots.len(),
        spec_mt_from(d, i).pending_left.button == d.pending_left.button,
        spec_mt_from(d, i).pending_left.wheel == d.pending_left.wheel,
        spec_mt_from(d, i).pending_right.button == d.pending_right.button,
        spec_mt_from(d, i).pending_right.wheel == d.pending_right.wheel,
    decreases d.mt_slots.len() - i,
{
    if i < 0 || i >= d.mt_slots.len() {
    } else {
        let r = spec_resolve_slot(d.mt_slots[i]);
        let d1 = DecoderModel { mt_slots: d.mt_slots.update(i, r.0), ..d };
        let d2 = match r.1 {
            Option::Some((c, ddx, ddy)) => spec_add_motion(d1, c, ddx, ddy),
            Option::None => d1,
        };
        lemma_mt_from_keeps_registers(d2, i + 1);
    }
}

/// The state machine, one instance per physical device.
pub struct Decoder {
    pub mapping: MappingStrategy,
    pub pending_left: PendingMotion,
    pub pending_right: PendingMotion,
    pub abs_left: AbsState,
    pub abs_right: AbsState,
    pub mt_slots: Vec<MtSlotState>,
    pub mt_cur_slot: i32,
    pub mt_left_tracking: Option<i32>,
    pub mt_right_tracking: Option<i32>,
    pub active_cursor: CursorId,
    pub warned_unknown: bool,
    pub last_axis_value: Option<i32>,
    pub scale: Scale,
}

impl View for Decoder {
    type V = DecoderModel;

    open spec fn view(&self) -> DecoderModel {
        DecoderModel {
            mapping: self.mapping,
            pending_left: self.pending_left,
            pending_right: self.pending_right,
            abs_left: self.abs_left,
            abs_right: self.abs_right,
            mt_slots: self.mt_slots@,
            mt_cur_slot: self.mt_cur_slot,
            mt_left_tracking: self.mt_left_tracking,
            mt_right_tracking: self.mt_right_tracking,
            active_cursor: self.active_cursor,
            warned_unknown: self.warned_unknown,
            last_axis_value: self.last_axis_value,
            scale: self.scale,
        }
    }
}

/// The model of a freshly constructed decoder.
pub open spec fn spec_new_decoder(mapping: MappingStrategy, scale: Scale) -> DecoderModel {
    DecoderModel {
        mapping,
        pending_left: PendingMotion::spec_empty(),
        pending_right: PendingMotion::spec_empty(),
        abs_left: AbsState::spec_empty(),
        abs_right: AbsState::spec_empty(),
        mt_slots: Seq::empty(),
        mt_cur_slot: 0,
        mt_left_tracking: Option::None,
        mt_right_tracking: Option::None,
        active_cursor: CursorId::Left,
        warned_unknown: false,
        last_axis_value: Option::None,
        scale,
    }
}

impl Decoder {
    /// A fresh decoder with the given assignment policy and motion
    /// scale. The active cursor starts as Left, no contact is tracked,
    /// and nothing is pending.
    pub fn new(mapping: MappingStrategy, scale: Scale) -> (d: Decoder)
        requires
            scale.wf(),
        ensures
            d@ == spec_new_decoder(mapping, scale),
            d@.wf(),
    {
        let d = Decoder {
            mapping,
            pending_left: PendingMotion::empty(),
            pending_right: PendingMotion::empty(),
            abs_left: AbsState::empty(),
            abs_right: AbsState::empty(),
            mt_slots: Vec::new(),
            mt_cur_slot: 0,
            mt_left_tracking: Option::None,
            mt_right_tracking: Option::None,
            active_cursor: CursorId::Left,
            warned_unknown: false,
            last_axis_value: Option::None,
            scale,
        };
        proof {
            assert(d@ =~= spec_new_decoder(mapping, scale));
        }
        d
    }

    /// A mutable borrow of one cursor's pending accumulator.
    fn pending_mut(&mut self, cursor: CursorId) -> (p: &mut PendingMotion)
        ensures
            *p == old(self)@.pending(cursor),
            final(self)@ == old(self)@.with_pending(cursor, *final(p)),
    {
        match cursor {
            CursorId::Left => &mut self.pending_left,
            CursorId::Right => &mut self.pending_right,
        }
    }

    /// Takes one cursor's pending accumulator, leaving it empty.
    fn take_pending(&mut self, cursor: CursorId) -> (p: PendingMotion)
        ensures
            p == old(self)@.pending(cursor),
            final(self)@ == old(self)@.with_pending(cursor, PendingMotion::spec_empty()),
    {
        let taken = PendingMotion::empty();
        match cursor {
            CursorId::Left => {
                let p = self.pending_left;
                self.pending_left = taken;
                p
            },
            CursorId::Right => {
                let p = self.pending_right;
                self.pending_right = taken;
                p
            },
        }
    }

    /// A mutable borrow of one cursor's simple-absolute tracking state.
    fn abs_state_mut(&mut self, cursor: CursorId) -> (st: &mut AbsState)
        ensures
            *st == old(self)@.abs_state(cursor),
            final(self)@ == old(self)@.with_abs_state(cursor, *final(st)),
    {
        match cursor {
            CursorId::Left => &mut self.abs_left,
            CursorId::Right => &mut self.abs_right,
        }
    }

    /// Attributes one event to a cursor under the decoder's policy.
    /// Never fails: without a positive match the last active cursor
    /// owns the event.
    fn cursor_for_event(&mut self, event: &RawEvent) -> (c: CursorId)
        ensures
            c == spec_cursor_for(old(self)@, *event).0,
            final(self)@ == spec_cursor_for(old(self)@, *event).1,
    {
        match self.mapping {
            MappingStrategy::DevicePerCursor { cursor } => cursor,
            MappingStrategy::SingleDevice { mapping } => {
                match cursor_from_single_mapping(&mapping, event, self.last_axis_value) {
                    Option::Some(c) => {
                        self.active_cursor = c;
                        c
                    },
                    Option::None => {
                        if matches!(mapping, SingleDeviceMapping::Unknown) && !self.warned_unknown {
                            self.warned_unknown = true;
                        }
                        self.active_cursor
                    },
                }
            },
        }
    }

    /// Re-evaluates a `ByAbsAxisRange` rule against one absolute-axis
    /// report, before position tracking, so following events route
    /// correctly.
    fn update_mapping_from_abs(&mut self, code: u16, value: i32)
        ensures
            final(self)@ == spec_update_mapping_from_abs(old(self)@, code, value),
    {
        match self.mapping {
            MappingStrategy::SingleDevice {
                mapping: SingleDeviceMapping::ByAbsAxisRange { axis, left, right },
            } => {
                if code == axis {
                    if left.contains(value) {
                        self.active_cursor = CursorId::Left;
                    } else if right.contains(value) {
                        self.active_cursor = CursorId::Right;
                    }
                }
            },
            _ => {},
        }
    }

    /// Grows the slot table (with empty slots) until `slot_index` is a
    /// valid index.
    fn ensure_slot(&mut self, slot_index: usize)
        ensures
            final(self)@ == (DecoderModel {
                mt_slots: spec_ensure_slots(old(self)@.mt_slots, slot_index as int),
                ..old(self)@
            }),
            final(self)@.mt_slots.len() > slot_index,
    {
        let ghost orig = self.mt_slots@;
        while self.mt_slots.len() <= slot_index
            invariant
                orig.len() <= self.mt_slots@.len(),
                self.mt_slots@.len() <= slot_index + 1 || self.mt_slots@ == orig,
                self.mt_slots@ == orig + Seq::new(
                    (self.mt_slots@.len() - orig.len()) as nat,
                    |j: int| MtSlotState::spec_empty(),
                ),
                self@ == (DecoderModel { mt_slots: self.mt_slots@, ..old(self)@ }),
            decreases slot_index + 1 - self.mt_slots.len(),
        {
            self.mt_slots.push(MtSlotState::empty());
            proof {
                assert(self.mt_slots@ =~= orig + Seq::new(
                    (self.mt_slots@.len() - orig.len()) as nat,
                    |j: int| MtSlotState::spec_empty(),
                ));
            }
        }
        proof {
            assert(self.mt_slots@ =~= spec_ensure_slots(orig, slot_index as int));
        }
    }

    /// Looks up or allocates the cursor for a tracking id, Left
    /// preferred when both are free; with both busy the id stays
    /// unbound.
    fn assign_tracking(&mut self, tracking_id: i32) -> (r: Option<CursorId>)
        ensures
            ({
                let t = spec_assign_tracking(
                    old(self)@.mt_left_tracking,
                    old(self)@.mt_right_tracking,
                    tracking_id,
                );
                r == t.0 && final(self)@ == (DecoderModel {
                    mt_left_tracking: t.1,
                    mt_right_tracking: t.2,
                    ..old(self)@
                })
            }),
    {
        let left_has = match self.mt_left_tracking {
            Option::Some(t) => t == tracking_id,
            Option::None => false,
        };
        if left_has {
            return Option::Some(CursorId::Left);
        }
        let right_has = match self.mt_right_tracking {
            Option::Some(t) => t == tracking_id,
            Option::None => false,
        };
        if right_has {
            return Option::Some(CursorId::Right);
        }
        if self.mt_left_tracking.is_none() {
            self.mt_left_tracking = Option::Some(tracking_id);
            return Option::Some(CursorId::Left);
        }
        if self.mt_right_tracking.is_none() {
            self.mt_right_tracking = Option::Some(tracking_id);
            return Option::Some(CursorId::Right);
        }
        Option::None
    }

    /// Frees whichever cursor register holds this tracking id.
    fn release_tracking(&mut self, tracking_id: i32)
        ensures
            ({
                let t = spec_release_tracking(
                    old(self)@.mt_left_tracking,
                    old(self)@.mt_right_tracking,
                    tracking_id,
                );
                final(self)@ == (DecoderModel {
                    mt_left_tracking: t.0,
                    mt_right_tracking: t.1,
                    ..old(self)@
                })
            }),
    {
        let left_has = match self.mt_left_tracking {
            Option::Some(t) => t == tracking_id,
            Option::None => false,
        };
        if left_has {
            self.mt_left_tracking = Option::None;
        }
        let right_has = match self.mt_right_tracking {
            Option::Some(t) => t == tracking_id,
            Option::None => false,
        };
        if right_has {
            self.mt_right_tracking = Option::None;
        }
    }

    /// Handles a tracking-id report for the current slot.
    fn handle_mt_tracking_id(&mut self, value: i32)
        ensures
            final(self)@ == spec_handle_tracking(old(self)@, value),
    {
        if self.mt_cur_slot < 0 {
            return;
        }
        let slot_index = self.mt_cur_slot as usize;
        self.ensure_slot(slot_index);
        if value < 0 {
            let slot = self.mt_slots[slot_index];
            match slot.tracking_id {
                Option::Some(tid) => self.release_tracking(tid),
                Option::None => {},
            }
            self.mt_slots[slot_index] = MtSlotState::empty();
            proof {
                assert(self@ =~= spec_handle_tracking(old(self)@, value));
            }
        } else {
            let assigned = self.assign_tracking(value);
            let slot = self.mt_slots[slot_index];
            let slot2 = match assigned {
                Option::Some(c) => MtSlotState {
                    tracking_id: Option::Some(value),
                    cursor: Option::Some(c),
                    last_x: Option::None,
                    last_y: Option::None,
                    cur_x: Option::None,
                    cur_y: Option::None,
                },
                Option::None => MtSlotState { tracking_id: Option::Some(value), ..slot },
            };
            self.mt_slots[slot_index] = slot2;
            proof {
                assert(self@ =~= spec_handle_tracking(old(self)@, value));
            }
        }
    }

    /// Stores a multi-touch position report as the current slot's
    /// in-progress sample.
    fn update_mt_slot_position(&mut self, code: u16, value: i32)
        ensures
            final(self)@ == spec_update_mt_slot_pos(old(self)@, code, value),
    {
        if self.mt_cur_slot < 0 {
            return;
        }
        let slot_index = self.mt_cur_slot as usize;
        self.ensure_slot(slot_index);
        let slot = self.mt_slots[slot_index];
        let slot2 = if code == ABS_MT_POSITION_X {
            MtSlotState { cur_x: Option::Some(value), ..slot }
        } else if code == ABS_MT_POSITION_Y {
            MtSlotState { cur_y: Option::Some(value), ..slot }
        } else {
            slot
        };
        self.mt_slots[slot_index] = slot2;
        proof {
            assert(self@ =~= spec_update_mt_slot_pos(old(self)@, code, value));
        }
    }

    /// Stores a plain absolute position report as the owning cursor's
    /// in-progress sample.
    fn update_abs_axis(&mut self, cursor: CursorId, code: u16, value: i32)
        ensures
            final(self)@ == spec_update_abs_axis(old(self)@, cursor, code, value),
    {
        let st = self.abs_state_mut(cursor);
        if code == ABS_X {
            st.cur_x = Option::Some(value);
        } else if code == ABS_Y {
            st.cur_y = Option::Some(value);
        }
    }

    /// Routes an absolute-axis report by axis identity.
    fn update_abs_position(&mut self, cursor: CursorId, code: u16, value: i32)
        ensures
            final(self)@ == spec_update_abs_position(old(self)@, cursor, code, value),
    {
        if code == ABS_MT_SLOT {
            self.mt_cur_slot = value;
        } else if code == ABS_MT_TRACKING_ID {
            self.handle_mt_tracking_id(value);
        } else if code == ABS_MT_POSITION_X || code == ABS_MT_POSITION_Y {
            self.update_mt_slot_position(code, value);
        } else if code == ABS_X || code == ABS_Y {
            self.update_abs_axis(cursor, code, value);
        }
    }

    /// Resolves one cursor's simple-absolute sample into a raw-unit
    /// delta, if the sample is complete and a previous sample exists.
    fn abs_delta(&mut self, cursor: CursorId) -> (d: (i64, i64))
        ensures
            final(self)@ == old(self)@.with_abs_state(
                cursor,
                spec_resolve_abs(old(self)@.abs_state(cursor)).0,
            ),
            d.0 as int == spec_resolve_abs(old(self)@.abs_state(cursor)).1,
            d.1 as int == spec_resolve_abs(old(self)@.abs_state(cursor)).2,
            -0x1_0000_0000 <= d.0 <= 0x1_0000_0000,
            -0x1_0000_0000 <= d.1 <= 0x1_0000_0000,
    {
        let st = self.abs_state_mut(cursor);
        match (st.cur_x, st.cur_y) {
            (Option::Some(x), Option::Some(y)) => {
                let had_last = st.last_x.is_some() && st.last_y.is_some();
                let last_x = st.last_x;
                let last_y = st.last_y;
                st.last_x = Option::Some(x);
                st.last_y = Option::Some(y);
                st.cur_x = Option::None;
                st.cur_y = Option::None;
                if had_last {
                    let lx = last_x.unwrap();
                    let ly = last_y.unwrap();
                    (x as i64 - lx as i64, y as i64 - ly as i64)
                } else {
                    (0i64, 0i64)
                }
            },
            _ => (0i64, 0i64),
        }
    }

    /// Resolves every slot's pending position into a delta against its
    /// last known position, added to the bound cursor's pending motion.
    fn apply_mt_deltas(&mut self)
        requires
            old(self)@.wf(),
        ensures
            final(self)@ == spec_mt_from(old(self)@, 0),
            final(self)@.wf(),
    {
        let ghost orig: DecoderModel = self@;
        let mut i: usize = 0;
        while i < self.mt_slots.len()
            invariant
                self@.wf(),
                i <= self.mt_slots@.len(),
                spec_mt_from(orig, 0) == spec_mt_from(self@, i as int),
            decreases self.mt_slots@.len() - i,
        {
            let ghost pre: DecoderModel = self@;
            let slot = self.mt_slots[i];
            match slot.cursor {
                Option::None => {
                    proof {
                        assert(pre.mt_slots.update(i as int, slot) =~= pre.mt_slots);
                        assert(spec_mt_from(pre, i as int) == spec_mt_from(pre, i + 1));
                    }
                },
                Option::Some(c) => {
                    if slot.cur_x.is_some() && slot.cur_y.is_some() {
                        let x = slot.cur_x.unwrap();
                        let y = slot.cur_y.unwrap();
                        let had_last = slot.last_x.is_some() && slot.last_y.is_some();
                        let mut settled = slot;
                        settled.last_x = Option::Some(x);
                        settled.last_y = Option::Some(y);
                        settled.cur_x = Option::None;
                        settled.cur_y = Option::None;
                        self.mt_slots[i] = settled;
                        if had_last {
                            let lx = slot.last_x.unwrap();
                            let ly = slot.last_y.unwrap();
                            let ddx = mul_scale(x as i64 - lx as i64, self.scale.num);
                            let ddy = mul_scale(y as i64 - ly as i64, self.scale.num);
                            let p = self.pending_mut(c);
                            p.dx_num = sat_add_i64(p.dx_num, ddx);
                            p.dy_num = sat_add_i64(p.dy_num, ddy);
                        }
                        proof {
                            let r = spec_resolve_slot(pre.mt_slots[i as int]);
                            let d1 = DecoderModel {
                                mt_slots: pre.mt_slots.update(i as int, r.0),
                                ..pre
                            };
                            if had_last {
                                assert(self@ =~= spec_add_motion(
                                    d1,
                                    c,
                                    r.1.unwrap().1,
                                    r.1.unwrap().2,
                                ));
                            } else {
                                assert(self@ =~= d1);
                            }
                            assert(spec_mt_from(pre, i as int) == spec_mt_from(self@, i + 1));
                        }
                    } else {
                        proof {
                            assert(pre.mt_slots.update(i as int, slot) =~= pre.mt_slots);
                            assert(spec_mt_from(pre, i as int) == spec_mt_from(pre, i + 1));
                        }
                    }
                },
            }
            i = i + 1;
        }
    }

    /// The per-cursor part of a sync flush, on the live state: resolve
    /// the absolute delta, take the pending motion, and emit one event
    /// unless everything is absent.
    fn flush_cursor(&mut self, cursor: CursorId) -> (ev: Option<CursorEvent>)
        requires
            old(self)@.wf(),
        ensures
            final(self)@ == spec_flush_cursor(old(self)@, cursor).0,
            ev == spec_flush_cursor(old(self)@, cursor).1,
            final(self)@.wf(),
    {
        let (adx, ady) = self.abs_delta(cursor);
        let scaled_dx = mul_scale(adx, self.scale.num);
        let scaled_dy = mul_scale(ady, self.scale.num);
        let pend = self.take_pending(cursor);
        let dx = sat_add_i64(pend.dx_num, scaled_dx);
        let dy = sat_add_i64(pend.dy_num, scaled_dy);
        proof {
            assert(self@ =~= spec_flush_cursor(old(self)@, cursor).0);
        }
        if dx == 0 && dy == 0 && pend.wheel == 0 && pend.button.is_none() {
            Option::None
        } else {
            Option::Some(CursorEvent {
                cursor,
                dx_num: dx,
                dy_num: dy,
                wheel: pend.wheel,
                button: pend.button,
            })
        }
    }

    /// Flush boundary: resolves every multi-touch slot and both
    /// cursors' absolute samples, then emits at most one event per
    /// cursor, Left before Right, suppressing cursors with nothing to
    /// report.
    fn flush(&mut self) -> (out: Vec<CursorEvent>)
        requires
            old(self)@.wf(),
        ensures
            final(self)@ == spec_flush(old(self)@).0,
            out@ == spec_flush(old(self)@).1,
            final(self)@.wf(),
    {
        self.apply_mt_deltas();
        let mut out: Vec<CursorEvent> = Vec::new();
        let ev_left = self.flush_cursor(CursorId::Left);
        match ev_left {
            Option::Some(e) => out.push(e),
            Option::None => {},
        }
        let ev_right = self.flush_cursor(CursorId::Right);
        match ev_right {
            Option::Some(e) => out.push(e),
            Option::None => {},
        }
        proof {
            assert(out@ =~= spec_flush(old(self)@).1);
        }
        out
    }

    /// Consumes one raw event: attributes it to a cursor, updates the
    /// decoder state, and returns the batch emitted if the event was a
    /// synchronization marker (empty otherwise). Never fails; unknown
    /// codes are ignored.
    pub fn decode(&mut self, event: RawEvent) -> (out: Vec<CursorEvent>)
        requires
            old(self)@.wf(),
        ensures
            final(self)@ == spec_step(old(self)@, event),
            out@ == spec_emit(old(self)@, event),
            final(self)@.wf(),
    {
        let cursor = self.cursor_for_event(&event);
        match event.kind {
            RawEventKind::RelAxis => {
                if event.code == REL_X {
                    let add = mul_scale(event.value as i64, self.scale.den);
                    let p = self.pending_mut(cursor);
                    p.dx_num = sat_add_i64(p.dx_num, add);
                } else if event.code == REL_Y {
                    let add = mul_scale(event.value as i64, self.scale.den);
                    let p = self.pending_mut(cursor);
                    p.dy_num = sat_add_i64(p.dy_num, add);
                } else if event.code == REL_WHEEL {
                    let p = self.pending_mut(cursor);
                    p.wheel = sat_add_i64(p.wheel, event.value as i64);
                }
                Vec::new()
            },
            RawEventKind::Key => {
                match map_button(event.code) {
                    Option::Some(b) => {
                        let pressed = event.value != 0;
                        let p = self.pending_mut(cursor);
                        p.button = Option::Some((b, pressed));
                    },
                    Option::None => {},
                }
                Vec::new()
            },
            RawEventKind::AbsAxis => {
                match self.mapping {
                    MappingStrategy::SingleDevice {
                        mapping: SingleDeviceMapping::ByAbsAxisRange { axis, .. },
                    } => {
                        if event.code == axis {
                            self.last_axis_value = Option::Some(event.value);
                        }
                    },
                    _ => {},
                }
                self.update_mapping_from_abs(event.code, event.value);
                self.update_abs_position(cursor, event.code, event.value);
                Vec::new()
            },
            RawEventKind::Sync => self.flush(),
            RawEventKind::Other => Vec::new(),
        }
    }
}

} // verus!
