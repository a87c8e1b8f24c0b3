//! The device multiplexer: one decoder per discovered source, the
//! two-device hint heuristic, and the per-cycle event feed.
//!
//! Waiting for readiness and draining file descriptors is the caller's
//! business: the caller hands each ready device's raw events to
//! [`EvdevDaemon::feed`], which runs them through that device's decoder
//! and returns the batch the decoder emitted.

use vstd::prelude::*;
use vstd::string::StringExecFns;

use crate::arith::Scale;
use crate::cursor::{CursorEvent, CursorId};
use crate::decode::{
    spec_new_decoder, spec_run, spec_run_emits, Decoder,
};
use crate::discover::DeviceCapabilities;
use crate::events::RawEvent;
use crate::mapping::{MappingStrategy, SingleDeviceMapping};

verus! {

/// One discovered input device: its node path, display name, and an
/// optional pre-known cursor hint.
#[derive(Clone, Debug)]
pub struct DeviceSource {
    pub path: String,
    pub name: String,
    pub cursor_hint: Option<CursorId>,
}

/// The cursor opposite to `c`.
pub open spec fn spec_other_cursor(c: CursorId) -> CursorId {
    match c {
        CursorId::Left => CursorId::Right,
        CursorId::Right => CursorId::Left,
    }
}

/// One source with its hint replaced.
pub open spec fn spec_with_hint(s: DeviceSource, c: CursorId) -> DeviceSource {
    DeviceSource { cursor_hint: Option::Some(c), ..s }
}

/// The two-device hint heuristic: with exactly two sources and at most
/// one hint present, the missing hints are filled in deterministically
/// (an unhinted pair becomes Left then Right; a single unhinted source
/// takes the cursor opposite its partner's). Any other source list is
/// left untouched.
pub open spec fn spec_assign_hints(s: Seq<DeviceSource>) -> Seq<DeviceSource> {
    if s.len() != 2 {
        s
    } else {
        match (s[0].cursor_hint, s[1].cursor_hint) {
            (Option::None, Option::None) => s.update(0, spec_with_hint(s[0], CursorId::Left))
                .update(1, spec_with_hint(s[1], CursorId::Right)),
            (Option::None, Option::Some(c)) => s.update(0, spec_with_hint(s[0], spec_other_cursor(c))),
            (Option::Some(c), Option::None) => s.update(1, spec_with_hint(s[1], spec_other_cursor(c))),
            _ => s,
        }
    }
}

/// Replaces the hint of one source in place.
fn set_hint(sources: &mut Vec<DeviceSource>, i: usize, c: CursorId)
    requires
        i < old(sources)@.len(),
    ensures
        final(sources)@ == old(sources)@.update(i as int, spec_with_hint(old(sources)@[i as int], c)),
{
    let mut s = sources.remove(i);
    s.cursor_hint = Option::Some(c);
    sources.insert(i, s);
    proof {
        assert(sources@ =~= old(sources)@.update(
            i as int,
            spec_with_hint(old(sources)@[i as int], c),
        ));
    }
}

/// Runs the two-device hint heuristic over a discovered source list.
pub fn assign_cursor_hints(sources: &mut Vec<DeviceSource>)
    ensures
        final(sources)@ == spec_assign_hints(old(sources)@),
{
    if sources.len() != 2 {
        return;
    }
    let hint0 = sources[0].cursor_hint;
    let hint1 = sources[1].cursor_hint;
    match (hint0, hint1) {
        (Option::None, Option::None) => {
            set_hint(sources, 0, CursorId::Left);
            set_hint(sources, 1, CursorId::Right);
            proof {
                assert(sources@ =~= spec_assign_hints(old(sources)@));
            }
        },
        (Option::None, Option::Some(c)) => {
            let other = match c {
                CursorId::Left => CursorId::Right,
                CursorId::Right => CursorId::Left,
            };
            set_hint(sources, 0, other);
        },
        (Option::Some(c), Option::None) => {
            let other = match c {
                CursorId::Left => CursorId::Right,
                CursorId::Right => CursorId::Left,
            };
            set_hint(sources, 1, other);
        },
        _ => {},
    }
}

/// The diagnostic line for one device's capabilities.
pub open spec fn spec_capability_line(source: DeviceSource, caps: DeviceCapabilities) -> Seq<char> {
    "capabilities of "@ + source.name@ + ":"@
        + (if caps.has_relative_events { " relative"@ } else { Seq::<char>::empty() })
        + (if caps.has_absolute_events { " absolute"@ } else { Seq::<char>::empty() })
        + (if caps.has_rel_x { " rel_x"@ } else { Seq::<char>::empty() })
        + (if caps.has_rel_y { " rel_y"@ } else { Seq::<char>::empty() })
        + (if caps.has_abs_x { " abs_x"@ } else { Seq::<char>::empty() })
        + (if caps.has_abs_y { " abs_y"@ } else { Seq::<char>::empty() })
        + (if caps.has_mt_position_x { " mt_position_x"@ } else { Seq::<char>::empty() })
        + (if caps.has_mt_position_y { " mt_position_y"@ } else { Seq::<char>::empty() })
}

/// Renders one device's capability flags as a diagnostic line for the
/// caller to log.
pub fn log_device_capabilities(source: &DeviceSource, caps: &DeviceCapabilities) -> (r: String)
    ensures
        r@ == spec_capability_line(*source, *caps),
{
    let mut out = String::new();
    out.append("capabilities of ");
    out.append(source.name.as_str());
    out.append(":");
    if caps.has_relative_events {
        out.append(" relative");
    }
    if caps.has_absolute_events {
        out.append(" absolute");
    }
    if caps.has_rel_x {
        out.append(" rel_x");
    }
    if caps.has_rel_y {
        out.append(" rel_y");
    }
    if caps.has_abs_x {
        out.append(" abs_x");
    }
    if caps.has_abs_y {
        out.append(" abs_y");
    }
    if caps.has_mt_position_x {
        out.append(" mt_position_x");
    }
    if caps.has_mt_position_y {
        out.append(" mt_position_y");
    }
    proof {
        assert(out@ =~= spec_capability_line(*source, *caps));
    }
    out
}

/// The mapping strategy a source's hint selects: a hinted device is
/// fixed to its cursor; an unhinted one starts as a single-device
/// stream with no rule established.
pub open spec fn spec_mapping_for(hint: Option<CursorId>) -> MappingStrategy {
    match hint {
        Option::Some(c) => MappingStrategy::DevicePerCursor { cursor: c },
        Option::None => MappingStrategy::SingleDevice { mapping: SingleDeviceMapping::Unknown },
    }
}

/// One device entry of the multiplexer: the source it was built from
/// and that device's decoder.
pub struct DeviceEntry {
    pub source: DeviceSource,
    pub decoder: Decoder,
}

/// The multiplexer core: one decoder per source, in discovery order.
pub struct EvdevDaemon {
    pub devices: Vec<DeviceEntry>,
}

impl EvdevDaemon {
    /// Every decoder is well-formed.
    pub open spec fn wf(self) -> bool {
        forall|i: int| 0 <= i < self.devices@.len() ==> (#[trigger] self.devices@[i]).decoder@.wf()
    }

    /// Builds the multiplexer: runs the two-device hint heuristic, then
    /// gives each source a fresh decoder under the mapping its hint
    /// selects.
    pub fn new(sources: Vec<DeviceSource>, scale: Scale) -> (d: EvdevDaemon)
        requires
            scale.wf(),
        ensures
            d.wf(),
            d.devices@.len() == sources@.len(),
            forall|i: int| 0 <= i < sources@.len() ==> {
                &&& (#[trigger] d.devices@[i]).source == spec_assign_hints(sources@)[i]
                &&& d.devices@[i].decoder@ == spec_new_decoder(
                    spec_mapping_for(spec_assign_hints(sources@)[i].cursor_hint),
                    scale,
                )
            },
    {
        let mut remaining = sources;
        assign_cursor_hints(&mut remaining);
        let ghost hinted = remaining@;
        let mut devices: Vec<DeviceEntry> = Vec::new();
        while remaining.len() > 0
            invariant
                scale.wf(),
                devices@.len() + remaining@.len() == hinted.len(),
                remaining@ == hinted.skip(devices@.len() as int),
                forall|i: int| 0 <= i < devices@.len() ==> {
                    &&& (#[trigger] devices@[i]).source == hinted[i]
                    &&& devices@[i].decoder@ == spec_new_decoder(
                        spec_mapping_for(hinted[i].cursor_hint),
                        scale,
                    )
                },
            decreases remaining@.len(),
        {
            let source = remaining.remove(0);
            let mapping = match source.cursor_hint {
                Option::Some(cursor) => MappingStrategy::DevicePerCursor { cursor },
                Option::None => MappingStrategy::SingleDevice {
                    mapping: SingleDeviceMapping::Unknown,
                },
            };
            let decoder = Decoder::new(mapping, scale);
            devices.push(DeviceEntry { source, decoder });
            proof {
                assert(remaining@ =~= hinted.skip(devices@.len() as int));
            }
        }
        EvdevDaemon { devices }
    }

    /// The number of device entries.
    pub fn device_count(&self) -> (n: usize)
        ensures
            n == self.devices@.len(),
    {
        self.devices.len()
    }

    /// Feeds one ready device's drained raw events, in arrival order,
    /// to that device's decoder, and returns everything the decoder
    /// emitted, in emission order.
    pub fn feed(&mut self, device_index: usize, events: &Vec<RawEvent>) -> (out: Vec<CursorEvent>)
        requires
            old(self).wf(),
            device_index < old(self).devices@.len(),
        ensures
            final(self).wf(),
            final(self).devices@.len() == old(self).devices@.len(),
            forall|j: int| 0 <= j < old(self).devices@.len() && j != device_index
                ==> final(self).devices@[j] == old(self).devices@[j],
            final(self).devices@[device_index as int].source
                == old(self).devices@[device_index as int].source,
            final(self).devices@[device_index as int].decoder@
                == spec_run(old(self).devices@[device_index as int].decoder@, events@),
            out@ == spec_run_emits(old(self).devices@[device_index as int].decoder@, events@),
    {
        let mut entry = self.devices.remove(device_index);
        let ghost d0 = entry.decoder@;
        let mut out: Vec<CursorEvent> = Vec::new();
        let mut k: usize = 0;
        proof {
            assert(events@.skip(0) =~= events@);
            assert(out@ + spec_run_emits(d0, events@) =~= spec_run_emits(d0, events@));
        }
        while k < events.len()
            invariant
                entry.decoder@.wf(),
                entry.source == old(self).devices@[device_index as int].source,
                k <= events@.len(),
                spec_run(d0, events@) == spec_run(entry.decoder@, events@.skip(k as int)),
                out@ + spec_run_emits(entry.decoder@, events@.skip(k as int))
                    == spec_run_emits(d0, events@),
            decreases events@.len() - k,
        {
            let ghost pre = entry.decoder@;
            let ev = events[k];
            let mut decoded = entry.decoder.decode(ev);
            out.append(&mut decoded);
            proof {
                assert(events@.skip(k as int)[0] == events@[k as int]);
                assert(events@.skip(k as int).skip(1) =~= events@.skip(k as int + 1));
                assert(out@ + spec_run_emits(entry.decoder@, events@.skip(k as int + 1))
                    =~= spec_run_emits(d0, events@));
            }
            k = k + 1;
        }
        let ghost entry_snap = entry;
        self.devices.insert(device_index, entry);
        proof {
            assert(self.devices@ =~= old(self).devices@.update(device_index as int, entry_snap));
            assert(events@.skip(events@.len() as int) =~= Seq::<RawEvent>::empty());
            assert(out@ =~= spec_run_emits(d0, events@));
        }
        out
    }
}

} // verus!
