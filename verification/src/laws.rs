//! Laws of the decoder, stated over the ghost transition functions and
//! proved once for all inputs.

use vstd::prelude::*;

use crate::arith::{spec_abs, Scale};
use crate::cursor::{CursorEvent, CursorId};
use crate::decode::{
    lemma_mt_from_keeps_registers, spec_cursor_for, spec_emit, spec_flush, spec_flush_cursor,
    spec_mt_from, spec_new_decoder, spec_resolve_slot, spec_run, spec_run_emits, spec_step,
    AbsState, DecoderModel, MtSlotState, PendingMotion,
};
use crate::events::{
    RawEvent, RawEventKind, ABS_MT_SLOT, ABS_MT_TRACKING_ID, ABS_X, ABS_Y, REL_WHEEL, REL_X,
    REL_Y,
};
use crate::mapping::{MappingStrategy, SingleDeviceMapping, ValueRange};

verus! {

/// An absolute-axis report.
pub open spec fn abs_event(code: u16, value: i32) -> RawEvent {
    RawEvent { kind: RawEventKind::AbsAxis, code, value }
}

/// A synchronization marker.
pub open spec fn sync_event() -> RawEvent {
    RawEvent { kind: RawEventKind::Sync, code: 0, value: 0 }
}

/// No cursor event is ever emitted with zero motion, zero wheel, and no
/// button transition: a cursor with nothing to report is suppressed at
/// the flush boundary.
pub proof fn lemma_no_phantom_events(d: DecoderModel, ev: RawEvent)
    ensures
        forall|k: int| 0 <= k < spec_emit(d, ev).len() ==> !{
            let e = #[trigger] spec_emit(d, ev)[k];
            e.dx_num == 0 && e.dy_num == 0 && e.wheel == 0 && e.button is None
        },
{
    if ev.kind == RawEventKind::Sync {
        let d1 = spec_cursor_for(d, ev).1;
        let dm = spec_mt_from(d1, 0);
        let l = spec_flush_cursor(dm, CursorId::Left);
        let r = spec_flush_cursor(l.0, CursorId::Right);
        assert(spec_emit(d, ev) == spec_flush(d1).1);
        match l.1 {
            Option::Some(e) => {
                assert(!(e.dx_num == 0 && e.dy_num == 0 && e.wheel == 0 && e.button is None));
            },
            Option::None => {},
        }
        match r.1 {
            Option::Some(e) => {
                assert(!(e.dx_num == 0 && e.dy_num == 0 && e.wheel == 0 && e.button is None));
            },
            Option::None => {},
        }
    }
}

/// A `DevicePerCursor` decoder ignores every assignment heuristic:
/// each event is attributed to the fixed cursor, whatever its axis
/// values or codes, and the policy never changes.
pub proof fn lemma_device_per_cursor_fixed(d: DecoderModel, ev: RawEvent, c: CursorId)
    requires
        d.mapping == (MappingStrategy::DevicePerCursor { cursor: c }),
    ensures
        spec_cursor_for(d, ev).0 == c,
        spec_step(d, ev).mapping == d.mapping,
        spec_step(d, ev).active_cursor == d.active_cursor,
{
    let d1 = spec_cursor_for(d, ev).1;
    assert(d1 == d);
    if ev.kind == RawEventKind::Sync {
        lemma_mt_from_keeps_registers(d1, 0);
    }
}

/// A `ByAbsAxisRange` report whose value lies in the left range makes
/// Left the active cursor (and owns the report itself); symmetrically
/// for the right range. The designated axis's value is what the
/// decoder remembers afterwards, whatever range it fell in.
pub proof fn lemma_abs_axis_range_selects(
    d: DecoderModel,
    axis: u16,
    left: ValueRange,
    right: ValueRange,
    value: i32,
)
    requires
        d.mapping == (MappingStrategy::SingleDevice {
            mapping: SingleDeviceMapping::ByAbsAxisRange { axis, left, right },
        }),
    ensures
        spec_step(d, abs_event(axis, value)).last_axis_value == Option::Some(value),
        spec_step(d, abs_event(axis, value)).mapping == d.mapping,
        left.spec_contains(value as int) ==> {
            &&& spec_cursor_for(d, abs_event(axis, value)).0 == CursorId::Left
            &&& spec_step(d, abs_event(axis, value)).active_cursor == CursorId::Left
        },
        !left.spec_contains(value as int) && right.spec_contains(value as int) ==> {
            &&& spec_cursor_for(d, abs_event(axis, value)).0 == CursorId::Right
            &&& spec_step(d, abs_event(axis, value)).active_cursor == CursorId::Right
        },
{
}

/// The range split is sticky on the designated axis's own value: while
/// a remembered designated-axis value lies in the left range, every
/// event that is not itself a designated-axis report — relative
/// motion, buttons, other absolute axes, syncs — still routes to Left
/// and keeps Left active, and the remembered value survives the event;
/// symmetrically for the right range. A remembered value in neither
/// range leaves the previously active cursor in charge.
pub proof fn lemma_abs_axis_range_sticky(
    d: DecoderModel,
    axis: u16,
    left: ValueRange,
    right: ValueRange,
    ev: RawEvent,
)
    requires
        d.mapping == (MappingStrategy::SingleDevice {
            mapping: SingleDeviceMapping::ByAbsAxisRange { axis, left, right },
        }),
        d.last_axis_value is Some,
        !(ev.kind == RawEventKind::AbsAxis && ev.code == axis),
    ensures
        spec_step(d, ev).last_axis_value == d.last_axis_value,
        spec_step(d, ev).mapping == d.mapping,
        left.spec_contains(d.last_axis_value->0 as int) ==> {
            &&& spec_cursor_for(d, ev).0 == CursorId::Left
            &&& spec_step(d, ev).active_cursor == CursorId::Left
        },
        !left.spec_contains(d.last_axis_value->0 as int)
            && right.spec_contains(d.last_axis_value->0 as int) ==> {
            &&& spec_cursor_for(d, ev).0 == CursorId::Right
            &&& spec_step(d, ev).active_cursor == CursorId::Right
        },
        !left.spec_contains(d.last_axis_value->0 as int)
            && !right.spec_contains(d.last_axis_value->0 as int) ==> {
            &&& spec_cursor_for(d, ev).0 == d.active_cursor
            &&& spec_step(d, ev).active_cursor == d.active_cursor
        },
{
    if ev.kind == RawEventKind::Sync {
        lemma_mt_from_keeps_registers(spec_cursor_for(d, ev).1, 0);
    }
}

/// An event that no single-device rule positively matches is owned by
/// the previously active cursor, and leaves the active cursor
/// unchanged — in particular an axis value in neither range.
pub proof fn lemma_unmatched_event_keeps_cursor(d: DecoderModel, ev: RawEvent, m: SingleDeviceMapping)
    requires
        d.mapping == (MappingStrategy::SingleDevice { mapping: m }),
        crate::mapping::spec_cursor_from_single_mapping(m, ev, d.last_axis_value) is None,
    ensures
        spec_cursor_for(d, ev).0 == d.active_cursor,
        spec_step(d, ev).active_cursor == d.active_cursor,
{
    let d1 = spec_cursor_for(d, ev).1;
    assert(d1.active_cursor == d.active_cursor);
    if ev.kind == RawEventKind::Sync {
        lemma_mt_from_keeps_registers(d1, 0);
    }
}

/// Two concurrent tracking ids always end up one bound to Left and one
/// to Right, Left first: from a decoder with both registers free,
/// selecting slot `s1` and assigning `t1`, then slot `s2` and `t2`,
/// binds `t1` to Left (in slot `s1`) and `t2` to Right (in slot `s2`).
#[verifier::rlimit(100)]
#[verifier::spinoff_prover]
pub proof fn lemma_two_contacts_split(
    d: DecoderModel,
    s1: i32,
    t1: i32,
    s2: i32,
    t2: i32,
)
    requires
        d.mt_left_tracking is None,
        d.mt_right_tracking is None,
        s1 >= 0,
        s2 >= 0,
        s1 != s2,
        t1 >= 0,
        t2 >= 0,
        t1 != t2,
    ensures
        ({
            let df = spec_run(d, seq![
                abs_event(ABS_MT_SLOT, s1),
                abs_event(ABS_MT_TRACKING_ID, t1),
                abs_event(ABS_MT_SLOT, s2),
                abs_event(ABS_MT_TRACKING_ID, t2),
            ]);
            &&& df.mt_left_tracking == Option::Some(t1)
            &&& df.mt_right_tracking == Option::Some(t2)
            &&& df.mt_slots[s1 as int].cursor == Option::Some(CursorId::Left)
            &&& df.mt_slots[s2 as int].cursor == Option::Some(CursorId::Right)
        }),
{
    let evs = seq![
        abs_event(ABS_MT_SLOT, s1),
        abs_event(ABS_MT_TRACKING_ID, t1),
        abs_event(ABS_MT_SLOT, s2),
        abs_event(ABS_MT_TRACKING_ID, t2),
    ];
    let rest1 = seq![evs[1], evs[2], evs[3]];
    let rest2 = seq![evs[2], evs[3]];
    let rest3 = seq![evs[3]];
    assert(evs.skip(1) =~= rest1);
    assert(rest1.skip(1) =~= rest2);
    assert(rest2.skip(1) =~= rest3);
    assert(rest3.skip(1) =~= Seq::<RawEvent>::empty());
    let da = spec_step(d, evs[0]);
    assert(da.mt_cur_slot == s1);
    assert(da.mt_left_tracking is None && da.mt_right_tracking is None);
    let db = spec_step(da, evs[1]);
    assert(db.mt_left_tracking == Option::Some(t1));
    assert(db.mt_right_tracking is None);
    assert(db.mt_slots[s1 as int].cursor == Option::Some(CursorId::Left));
    assert(db.mt_cur_slot == s1);
    let dc = spec_step(db, evs[2]);
    assert(dc.mt_cur_slot == s2);
    assert(dc.mt_slots == db.mt_slots);
    let df = spec_step(dc, evs[3]);
    assert(df.mt_left_tracking == Option::Some(t1));
    assert(df.mt_right_tracking == Option::Some(t2));
    assert(df.mt_slots[s2 as int].cursor == Option::Some(CursorId::Right));
    assert(df.mt_slots[s1 as int].cursor == Option::Some(CursorId::Left));
    assert(spec_run(d, evs) == spec_run(da, rest1));
    assert(spec_run(da, rest1) == spec_run(db, rest2));
    assert(spec_run(db, rest2) == spec_run(dc, rest3));
    assert(spec_run(dc, rest3) == spec_run(df, Seq::<RawEvent>::empty()));
    assert(spec_run(d, evs) == df);
}

/// A third concurrent tracking id is never bound: with both registers
/// busy with other ids, a new id on a fresh slot leaves the registers
/// unchanged and the slot without a cursor.
pub proof fn lemma_third_contact_ignored(d: DecoderModel, t3: i32)
    requires
        d.mt_left_tracking is Some,
        d.mt_right_tracking is Some,
        d.mt_left_tracking != Option::Some(t3),
        d.mt_right_tracking != Option::Some(t3),
        t3 >= 0,
        d.mt_cur_slot >= 0,
        d.mt_cur_slot as int >= d.mt_slots.len() || d.mt_slots[d.mt_cur_slot as int].cursor is None,
    ensures
        ({
            let df = spec_step(d, abs_event(ABS_MT_TRACKING_ID, t3));
            &&& df.mt_left_tracking == d.mt_left_tracking
            &&& df.mt_right_tracking == d.mt_right_tracking
            &&& df.mt_slots[d.mt_cur_slot as int].cursor is None
        }),
{
}

/// Releasing a tracking id (a negative tracking-id report) clears the
/// slot and frees whichever cursor register held the id, making that
/// cursor available for the next allocation.
pub proof fn lemma_release_frees_cursor(d: DecoderModel, t: i32, v: i32)
    requires
        v < 0,
        d.mt_cur_slot >= 0,
        (d.mt_cur_slot as int) < d.mt_slots.len(),
        d.mt_slots[d.mt_cur_slot as int].tracking_id == Option::Some(t),
    ensures
        ({
            let df = spec_step(d, abs_event(ABS_MT_TRACKING_ID, v));
            &&& df.mt_slots[d.mt_cur_slot as int] == MtSlotState::spec_empty()
            &&& df.mt_left_tracking == (if d.mt_left_tracking == Option::Some(t) {
                Option::None::<i32>
            } else {
                d.mt_left_tracking
            })
            &&& df.mt_right_tracking == (if d.mt_right_tracking == Option::Some(t) {
                Option::None::<i32>
            } else {
                d.mt_right_tracking
            })
        }),
{
}

/// Every event of the sequence is a relative-axis report.
pub open spec fn spec_all_rel(evs: Seq<RawEvent>) -> bool {
    forall|i: int| 0 <= i < evs.len() ==> (#[trigger] evs[i]).kind == RawEventKind::RelAxis
}

/// The sum of the values of all reports of one relative axis.
pub open spec fn spec_sum_rel(evs: Seq<RawEvent>, code: u16) -> int
    decreases evs.len(),
{
    if evs.len() == 0 {
        0
    } else {
        (if evs[0].code == code {
            evs[0].value as int
        } else {
            0
        }) + spec_sum_rel(evs.skip(1), code)
    }
}

/// The sum of the absolute values of all reports of one relative axis;
/// it bounds every partial sum.
pub open spec fn spec_abs_sum_rel(evs: Seq<RawEvent>, code: u16) -> int
    decreases evs.len(),
{
    if evs.len() == 0 {
        0
    } else {
        (if evs[0].code == code {
            spec_abs(evs[0].value as int)
        } else {
            0
        }) + spec_abs_sum_rel(evs.skip(1), code)
    }
}

proof fn lemma_abs_sum_nonneg(evs: Seq<RawEvent>, code: u16)
    ensures
        spec_abs_sum_rel(evs, code) >= 0,
    decreases evs.len(),
{
    if evs.len() > 0 {
        lemma_abs_sum_nonneg(evs.skip(1), code);
    }
}

/// One step of budget accounting for a saturating accumulator: when
/// the absolute budget covers the whole remaining sum, the next
/// addition neither saturates nor exhausts the budget for the rest.
#[verifier::nonlinear]
proof fn lemma_budget_step(p: int, ap: int, v: int, av: int, rest: int, den: int, cap: int)
    requires
        den >= 1,
        rest >= 0,
        -ap <= p <= ap,
        -av <= v <= av,
        ap + den * (av + rest) <= cap,
    ensures
        -cap <= p + den * v <= cap,
        -cap <= den * v <= cap,
        (if p + den * v < 0 {
            -(p + den * v)
        } else {
            p + den * v
        }) + den * rest <= cap,
{
}

/// Running a sequence and then one more event is one step on the state
/// the sequence reaches; the emissions concatenate.
pub proof fn lemma_run_append_one(d: DecoderModel, evs: Seq<RawEvent>, e: RawEvent)
    ensures
        spec_run(d, evs.push(e)) == spec_step(spec_run(d, evs), e),
        spec_run_emits(d, evs.push(e)) == spec_run_emits(d, evs) + spec_emit(spec_run(d, evs), e),
    decreases evs.len(),
{
    if evs.len() == 0 {
        let d1 = spec_step(d, e);
        assert(evs.push(e)[0] == e);
        assert(evs.push(e).skip(1) =~= Seq::<RawEvent>::empty());
        assert(spec_run(d, evs) == d);
        assert(spec_run(d1, Seq::<RawEvent>::empty()) == d1);
        assert(spec_run_emits(d1, Seq::<RawEvent>::empty()) == Seq::<CursorEvent>::empty());
        assert(spec_run_emits(d, evs.push(e)) =~= spec_run_emits(d, evs) + spec_emit(
            spec_run(d, evs),
            e,
        ));
    } else {
        let d1 = spec_step(d, evs[0]);
        assert(evs.push(e)[0] == evs[0]);
        assert(evs.push(e).skip(1) =~= evs.skip(1).push(e));
        lemma_run_append_one(d1, evs.skip(1), e);
        assert(spec_run(d, evs.push(e)) == spec_run(d1, evs.skip(1).push(e)));
        assert(spec_run(d, evs) == spec_run(d1, evs.skip(1)));
        assert(spec_run_emits(d, evs.push(e)) =~= spec_run_emits(d, evs) + spec_emit(
            spec_run(d, evs),
            e,
        ));
    }
}

/// Relative reports accumulate exactly: running a sequence of
/// relative-axis reports on a fixed-cursor decoder adds the scaled sum
/// of each axis's increments to that cursor's pending motion, touches
/// nothing else, and emits nothing — as long as the sums stay inside
/// the i64 range.
pub proof fn lemma_rel_accumulation(d: DecoderModel, c: CursorId, evs: Seq<RawEvent>)
    requires
        d.wf(),
        d.mapping == (MappingStrategy::DevicePerCursor { cursor: c }),
        spec_all_rel(evs),
        spec_abs(d.pending(c).dx_num as int) + d.scale.den * spec_abs_sum_rel(evs, REL_X)
            <= i64::MAX as int,
        spec_abs(d.pending(c).dy_num as int) + d.scale.den * spec_abs_sum_rel(evs, REL_Y)
            <= i64::MAX as int,
        spec_abs(d.pending(c).wheel as int) + spec_abs_sum_rel(evs, REL_WHEEL) <= i64::MAX as int,
    ensures
        spec_run(d, evs) == d.with_pending(c, PendingMotion {
            dx_num: (d.pending(c).dx_num + d.scale.den * spec_sum_rel(evs, REL_X)) as i64,
            dy_num: (d.pending(c).dy_num + d.scale.den * spec_sum_rel(evs, REL_Y)) as i64,
            wheel: (d.pending(c).wheel + spec_sum_rel(evs, REL_WHEEL)) as i64,
            button: d.pending(c).button,
        }),
        spec_run_emits(d, evs) == Seq::<CursorEvent>::empty(),
        -(i64::MAX as int) <= d.pending(c).dx_num + d.scale.den * spec_sum_rel(evs, REL_X)
            <= i64::MAX as int,
        -(i64::MAX as int) <= d.pending(c).dy_num + d.scale.den * spec_sum_rel(evs, REL_Y)
            <= i64::MAX as int,
        -(i64::MAX as int) <= d.pending(c).wheel + spec_sum_rel(evs, REL_WHEEL) <= i64::MAX as int,
    decreases evs.len(),
{
    let p = d.pending(c);
    let den = d.scale.den as int;
    lemma_abs_sum_nonneg(evs, REL_X);
    lemma_abs_sum_nonneg(evs, REL_Y);
    lemma_abs_sum_nonneg(evs, REL_WHEEL);
    if evs.len() == 0 {
        assert(den * 0 == 0) by (nonlinear_arith);
        assert(d.with_pending(c, PendingMotion {
            dx_num: (p.dx_num + den * 0) as i64,
            dy_num: (p.dy_num + den * 0) as i64,
            wheel: (p.wheel + 0) as i64,
            button: p.button,
        }) =~= d);
    } else {
        let ev = evs[0];
        let rest = evs.skip(1);
        let v = ev.value as int;
        lemma_abs_sum_nonneg(rest, REL_X);
        lemma_abs_sum_nonneg(rest, REL_Y);
        lemma_abs_sum_nonneg(rest, REL_WHEEL);
        assert(ev.kind == RawEventKind::RelAxis);
        assert(spec_all_rel(rest)) by {
            assert(forall|i: int| 0 <= i < rest.len() ==> rest[i] == evs[i + 1]);
        }
        assert(spec_cursor_for(d, ev).0 == c && spec_cursor_for(d, ev).1 == d);
        let d1 = spec_step(d, ev);
        assert(d1 == crate::decode::spec_apply_rel(d, c, ev.code, ev.value));
        if ev.code == REL_X {
            lemma_budget_step(
                p.dx_num as int,
                spec_abs(p.dx_num as int),
                v,
                spec_abs(v),
                spec_abs_sum_rel(rest, REL_X),
                den,
                i64::MAX as int,
            );
            let p1 = d1.pending(c);
            assert(p1.dx_num as int == p.dx_num + den * v);
            assert(p1.dy_num == p.dy_num && p1.wheel == p.wheel && p1.button == p.button);
            lemma_rel_accumulation(d1, c, rest);
            vstd::arithmetic::mul::lemma_mul_is_distributive_add(
                den,
                v,
                spec_sum_rel(rest, REL_X),
            );
            assert(d1.with_pending(c, spec_run(d1, rest).pending(c)) =~= d.with_pending(
                c,
                spec_run(d1, rest).pending(c),
            ));
            assert(spec_run(d, evs) =~= d.with_pending(c, PendingMotion {
                dx_num: (p.dx_num + den * spec_sum_rel(evs, REL_X)) as i64,
                dy_num: (p.dy_num + den * spec_sum_rel(evs, REL_Y)) as i64,
                wheel: (p.wheel + spec_sum_rel(evs, REL_WHEEL)) as i64,
                button: p.button,
            }));
        } else if ev.code == REL_Y {
            lemma_budget_step(
                p.dy_num as int,
                spec_abs(p.dy_num as int),
                v,
                spec_abs(v),
                spec_abs_sum_rel(rest, REL_Y),
                den,
                i64::MAX as int,
            );
            let p1 = d1.pending(c);
            assert(p1.dy_num as int == p.dy_num + den * v);
            assert(p1.dx_num == p.dx_num && p1.wheel == p.wheel && p1.button == p.button);
            lemma_rel_accumulation(d1, c, rest);
            vstd::arithmetic::mul::lemma_mul_is_distributive_add(
                den,
                v,
                spec_sum_rel(rest, REL_Y),
            );
            assert(d1.with_pending(c, spec_run(d1, rest).pending(c)) =~= d.with_pending(
                c,
                spec_run(d1, rest).pending(c),
            ));
            assert(spec_run(d, evs) =~= d.with_pending(c, PendingMotion {
                dx_num: (p.dx_num + den * spec_sum_rel(evs, REL_X)) as i64,
                dy_num: (p.dy_num + den * spec_sum_rel(evs, REL_Y)) as i64,
                wheel: (p.wheel + spec_sum_rel(evs, REL_WHEEL)) as i64,
                button: p.button,
            }));
        } else if ev.code == REL_WHEEL {
            lemma_budget_step(
                p.wheel as int,
                spec_abs(p.wheel as int),
                v,
                spec_abs(v),
                spec_abs_sum_rel(rest, REL_WHEEL),
                1,
                i64::MAX as int,
            );
            let p1 = d1.pending(c);
            assert(p1.wheel as int == p.wheel + v);
            assert(p1.dx_num == p.dx_num && p1.dy_num == p.dy_num && p1.button == p.button);
            lemma_rel_accumulation(d1, c, rest);
            assert(d1.with_pending(c, spec_run(d1, rest).pending(c)) =~= d.with_pending(
                c,
                spec_run(d1, rest).pending(c),
            ));
            assert(spec_run(d, evs) =~= d.with_pending(c, PendingMotion {
                dx_num: (p.dx_num + den * spec_sum_rel(evs, REL_X)) as i64,
                dy_num: (p.dy_num + den * spec_sum_rel(evs, REL_Y)) as i64,
                wheel: (p.wheel + spec_sum_rel(evs, REL_WHEEL)) as i64,
                button: p.button,
            }));
        } else {
            assert(d1 == d);
            lemma_rel_accumulation(d1, c, rest);
        }
        assert(spec_run_emits(d, evs) =~= Seq::<CursorEvent>::empty());
    }
}

#[verifier::nonlinear]
proof fn lemma_delta_fits(dv: int, num: int)
    requires
        -0x1_0000_0000 <= dv <= 0x1_0000_0000,
        0 <= num <= 1_000_000,
    ensures
        -(i64::MAX as int) <= dv * num <= i64::MAX as int,
{
}

/// Relative reports followed by a sync emit exactly the sums: a
/// fixed-cursor decoder fed any sequence of relative-axis reports and
/// then a synchronization marker emits one event whose dx/dy are the
/// exact sums of the X/Y increments (in scale-denominator units) and
/// whose wheel is the exact sum of the wheel ticks — or nothing at all
/// when every sum is zero. The bounds keep the sums inside the i64
/// range.
#[verifier::rlimit(60)]
pub proof fn lemma_relative_reports_then_sync(
    c: CursorId,
    scale: Scale,
    evs: Seq<RawEvent>,
    sync_ev: RawEvent,
)
    requires
        scale.wf(),
        spec_all_rel(evs),
        sync_ev.kind == RawEventKind::Sync,
        scale.den * spec_abs_sum_rel(evs, REL_X) <= i64::MAX as int,
        scale.den * spec_abs_sum_rel(evs, REL_Y) <= i64::MAX as int,
        spec_abs_sum_rel(evs, REL_WHEEL) <= i64::MAX as int,
    ensures
        ({
            let d0 = spec_new_decoder(MappingStrategy::DevicePerCursor { cursor: c }, scale);
            let dx = scale.den * spec_sum_rel(evs, REL_X);
            let dy = scale.den * spec_sum_rel(evs, REL_Y);
            let w = spec_sum_rel(evs, REL_WHEEL);
            spec_run_emits(d0, evs.push(sync_ev)) == (if dx == 0 && dy == 0 && w == 0 {
                Seq::<CursorEvent>::empty()
            } else {
                seq![
                    CursorEvent {
                        cursor: c,
                        dx_num: dx as i64,
                        dy_num: dy as i64,
                        wheel: w as i64,
                        button: Option::None,
                    },
                ]
            })
        }),
{
    let d0 = spec_new_decoder(MappingStrategy::DevicePerCursor { cursor: c }, scale);
    let dx = scale.den * spec_sum_rel(evs, REL_X);
    let dy = scale.den * spec_sum_rel(evs, REL_Y);
    let w = spec_sum_rel(evs, REL_WHEEL);
    assert(d0.pending(c) == PendingMotion::spec_empty());
    assert(spec_abs(0) == 0);
    lemma_rel_accumulation(d0, c, evs);
    lemma_run_append_one(d0, evs, sync_ev);
    let dp = spec_run(d0, evs);
    assert(dp == d0.with_pending(c, PendingMotion {
        dx_num: dx as i64,
        dy_num: dy as i64,
        wheel: w as i64,
        button: Option::None,
    }));
    assert(spec_cursor_for(dp, sync_ev).1 == dp);
    assert(dp.mt_slots.len() == 0);
    assert(spec_mt_from(dp, 0) == dp);
    assert(0 * (scale.num as int) == 0) by (nonlinear_arith);
    let l = spec_flush_cursor(dp, CursorId::Left);
    let r = spec_flush_cursor(l.0, CursorId::Right);
    match c {
        CursorId::Left => {
            assert(dp.pending(CursorId::Right) == PendingMotion::spec_empty());
            assert(r.1 is None);
            if dx == 0 && dy == 0 && w == 0 {
                assert(l.1 is None);
                assert(spec_run_emits(d0, evs.push(sync_ev)) =~= Seq::<CursorEvent>::empty());
            } else {
                assert(spec_run_emits(d0, evs.push(sync_ev)) =~= seq![l.1->0]);
            }
        },
        CursorId::Right => {
            assert(dp.pending(CursorId::Left) == PendingMotion::spec_empty());
            assert(l.1 is None);
            assert(l.0.pending(CursorId::Right) == dp.pending(CursorId::Right));
            if dx == 0 && dy == 0 && w == 0 {
                assert(r.1 is None);
                assert(spec_run_emits(d0, evs.push(sync_ev)) =~= Seq::<CursorEvent>::empty());
            } else {
                assert(spec_run_emits(d0, evs.push(sync_ev)) =~= seq![r.1->0]);
            }
        },
    }
}

/// The first complete absolute sample after decoder start only seeds
/// the position history and produces no event; the second emits
/// exactly `(current - previous) * scale` on each axis (or nothing
/// when both deltas are zero).
#[verifier::rlimit(100)]
pub proof fn lemma_abs_first_sample_seeds(
    c: CursorId,
    scale: Scale,
    x1: i32,
    y1: i32,
    x2: i32,
    y2: i32,
)
    requires
        scale.wf(),
    ensures
        ({
            let d0 = spec_new_decoder(MappingStrategy::DevicePerCursor { cursor: c }, scale);
            let evs = seq![
                abs_event(ABS_X, x1),
                abs_event(ABS_Y, y1),
                sync_event(),
                abs_event(ABS_X, x2),
                abs_event(ABS_Y, y2),
                sync_event(),
            ];
            let dx = (x2 - x1) * scale.num;
            let dy = (y2 - y1) * scale.num;
            spec_run_emits(d0, evs) == (if dx == 0 && dy == 0 {
                Seq::<CursorEvent>::empty()
            } else {
                seq![
                    CursorEvent {
                        cursor: c,
                        dx_num: dx as i64,
                        dy_num: dy as i64,
                        wheel: 0,
                        button: Option::None,
                    },
                ]
            })
        }),
{
    let d0 = spec_new_decoder(MappingStrategy::DevicePerCursor { cursor: c }, scale);
    let evs = seq![
        abs_event(ABS_X, x1),
        abs_event(ABS_Y, y1),
        sync_event(),
        abs_event(ABS_X, x2),
        abs_event(ABS_Y, y2),
        sync_event(),
    ];
    let dx = (x2 - x1) * scale.num;
    let dy = (y2 - y1) * scale.num;
    lemma_delta_fits(x2 - x1, scale.num as int);
    lemma_delta_fits(y2 - y1, scale.num as int);
    assert(0 * (scale.num as int) == 0) by (nonlinear_arith);
    let rest1 = seq![evs[1], evs[2], evs[3], evs[4], evs[5]];
    let rest2 = seq![evs[2], evs[3], evs[4], evs[5]];
    let rest3 = seq![evs[3], evs[4], evs[5]];
    let rest4 = seq![evs[4], evs[5]];
    let rest5 = seq![evs[5]];
    assert(evs.skip(1) =~= rest1);
    assert(rest1.skip(1) =~= rest2);
    assert(rest2.skip(1) =~= rest3);
    assert(rest3.skip(1) =~= rest4);
    assert(rest4.skip(1) =~= rest5);
    assert(rest5.skip(1) =~= Seq::<RawEvent>::empty());

    let other = crate::daemon::spec_other_cursor(c);
    let da = spec_step(d0, evs[0]);
    assert(da == d0.with_abs_state(c, AbsState {
        cur_x: Option::Some(x1),
        ..AbsState::spec_empty()
    }));
    let db = spec_step(da, evs[1]);
    assert(db.abs_state(c) == (AbsState {
        cur_x: Option::Some(x1),
        cur_y: Option::Some(y1),
        last_x: Option::None,
        last_y: Option::None,
    }));
    assert(db.abs_state(other) == AbsState::spec_empty());
    assert(db.pending_left == PendingMotion::spec_empty());
    assert(db.pending_right == PendingMotion::spec_empty());
    assert(db.mt_slots.len() == 0);
    let dc = spec_step(db, evs[2]);
    assert(spec_mt_from(db, 0) == db);
    assert(spec_emit(db, evs[2]) =~= Seq::<CursorEvent>::empty());
    assert(dc.abs_state(c) == (AbsState {
        cur_x: Option::None,
        cur_y: Option::None,
        last_x: Option::Some(x1),
        last_y: Option::Some(y1),
    }));
    assert(dc.abs_state(other) == AbsState::spec_empty());
    assert(dc.pending_left == PendingMotion::spec_empty());
    assert(dc.pending_right == PendingMotion::spec_empty());
    assert(dc.mt_slots.len() == 0);
    let dd = spec_step(dc, evs[3]);
    let de = spec_step(dd, evs[4]);
    assert(de.abs_state(c) == (AbsState {
        cur_x: Option::Some(x2),
        cur_y: Option::Some(y2),
        last_x: Option::Some(x1),
        last_y: Option::Some(y1),
    }));
    assert(de.abs_state(other) == AbsState::spec_empty());
    assert(de.pending_left == PendingMotion::spec_empty());
    assert(de.pending_right == PendingMotion::spec_empty());
    assert(de.mt_slots.len() == 0);
    assert(spec_mt_from(de, 0) == de);
    let l = spec_flush_cursor(de, CursorId::Left);
    let r = spec_flush_cursor(l.0, CursorId::Right);
    match c {
        CursorId::Left => {
            assert(r.1 is None);
            if dx == 0 && dy == 0 {
                assert(l.1 is None);
                assert(spec_emit(de, evs[5]) =~= Seq::<CursorEvent>::empty());
            } else {
                assert(spec_emit(de, evs[5]) =~= seq![
                    CursorEvent {
                        cursor: c,
                        dx_num: dx as i64,
                        dy_num: dy as i64,
                        wheel: 0,
                        button: Option::None,
                    },
                ]);
            }
        },
        CursorId::Right => {
            assert(l.1 is None);
            if dx == 0 && dy == 0 {
                assert(r.1 is None);
                assert(spec_emit(de, evs[5]) =~= Seq::<CursorEvent>::empty());
            } else {
                assert(spec_emit(de, evs[5]) =~= seq![
                    CursorEvent {
                        cursor: c,
                        dx_num: dx as i64,
                        dy_num: dy as i64,
                        wheel: 0,
                        button: Option::None,
                    },
                ]);
            }
        },
    }
    let dz = spec_step(de, evs[5]);
    assert(spec_run_emits(dz, Seq::<RawEvent>::empty()) =~= Seq::<CursorEvent>::empty());
    assert(spec_run_emits(de, rest5) =~= spec_emit(de, evs[5]));
    assert(spec_run_emits(dd, rest4) =~= spec_emit(de, evs[5]));
    assert(spec_run_emits(dc, rest3) =~= spec_emit(de, evs[5]));
    assert(spec_run_emits(db, rest2) =~= spec_emit(db, evs[2]) + spec_emit(de, evs[5]));
    assert(spec_run_emits(da, rest1) =~= spec_emit(db, evs[2]) + spec_emit(de, evs[5]));
    assert(spec_run_emits(d0, evs) =~= spec_emit(db, evs[2]) + spec_emit(de, evs[5]));
    assert(spec_run_emits(d0, evs) == spec_emit(de, evs[5]));
}

/// A slot whose position history was just cleared (a fresh binding or
/// a released slot) contributes no delta at the next sync: a resolved
/// contribution only ever comes from a slot that already carries a
/// complete last sample, and it is exactly current minus last.
pub proof fn lemma_first_mt_sample_no_delta(slot: MtSlotState)
    ensures
        spec_resolve_slot(slot).1 is Some ==> {
            &&& slot.last_x is Some
            &&& slot.last_y is Some
            &&& slot.cur_x is Some
            &&& slot.cur_y is Some
            &&& slot.cursor is Some
            &&& (spec_resolve_slot(slot).1->0).1 == slot.cur_x->0 - slot.last_x->0
            &&& (spec_resolve_slot(slot).1->0).2 == slot.cur_y->0 - slot.last_y->0
        },
{
}

} // verus!
