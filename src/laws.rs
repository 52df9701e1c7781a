//! Properties of event handling over whole event sequences.
use vstd::prelude::*;
use crate::names::Axis;
use crate::text::{LineView, axis_text};
use crate::dispatch::{Event, OpenedGamepad, Settings, step, cycle};

verus! {

/// A device that was opened is in the table once its `DeviceAdded` event is
/// handled, and is gone once the matching `DeviceRemoved` follows; the rest
/// of the table is as it was.
pub proof fn lemma_added_then_removed<H>(
    reg: Map<u32, H>,
    index: u32,
    g: OpenedGamepad<H>,
    settings: Settings,
)
    ensures
        step(reg, Event::DeviceAdded { index, opened: Some(g) }, settings).0.contains_key(g.id),
        ({
            let id = g.id;
            let events = seq![
                Event::DeviceAdded { index, opened: Some(g) },
                Event::DeviceRemoved { id },
            ];
            let after = cycle(reg, events, settings).0;
            &&& !after.contains_key(id)
            &&& after == reg.remove(id)
        }),
{
    let id = g.id;
    let events = seq![Event::DeviceAdded { index, opened: Some(g) }, Event::DeviceRemoved { id }];
    let rest = events.subrange(1, 2);
    assert(rest[0] == Event::<H>::DeviceRemoved { id });
    assert(events[0] == Event::DeviceAdded { index, opened: Some(g) });
    let r1 = reg.insert(id, g.handle);
    assert(rest.subrange(1, 1).len() == 0);
    assert(cycle(r1.remove(id), rest.subrange(1, 1), settings).0 == r1.remove(id));
    assert(cycle(r1, rest, settings).0 == r1.remove(id));
    assert(cycle(reg, events, settings).0 == reg.insert(id, g.handle).remove(id));
    assert(reg.insert(id, g.handle).remove(id) =~= reg.remove(id));
}

/// Removing an id that is not in the table changes nothing and is no error.
pub proof fn lemma_remove_absent<H>(reg: Map<u32, H>, id: u32, settings: Settings)
    requires
        !reg.contains_key(id),
    ensures
        step(reg, Event::DeviceRemoved { id }, settings).0 == reg,
        !step(reg, Event::DeviceRemoved { id }, settings).2,
{
    assert(reg.remove(id) =~= reg);
}

/// With no deadzone every axis event is printed; with a deadzone `d > 0` an
/// event is printed exactly when its magnitude exceeds `d`.
pub proof fn lemma_deadzone<H>(reg: Map<u32, H>, id: u32, axis: Axis, value: i16, settings: Settings)
    ensures
        ({
            let printed = step(reg, Event::AxisMotion { id, axis, value }, settings).1;
            let magnitude = if value < 0 { -(value as int) } else { value as int };
            &&& settings.deadzone == 0 ==> printed == seq![
                LineView::Stdout(axis_text(id, axis, value)),
            ]
            &&& settings.deadzone > 0 && magnitude > settings.deadzone ==> printed == seq![
                LineView::Stdout(axis_text(id, axis, value)),
            ]
            &&& settings.deadzone > 0 && magnitude <= settings.deadzone ==> printed.len() == 0
        }),
{
}

/// A `Quit` ends the batch it is in: what follows it is not handled, and
/// the outcome is that of the events before it, with the loop told to stop.
pub proof fn lemma_quit_ends_cycle<H>(
    reg: Map<u32, H>,
    before: Seq<Event<H>>,
    after: Seq<Event<H>>,
    settings: Settings,
)
    requires
        forall|i: int| 0 <= i < before.len() ==> !(#[trigger] before[i] is Quit),
    ensures
        ({
            let whole = cycle(reg, before + seq![Event::Quit] + after, settings);
            let head = cycle(reg, before, settings);
            whole == (head.0, head.1, true)
        }),
    decreases before.len(),
{
    let events = before + seq![Event::Quit] + after;
    if before.len() == 0 {
        assert(events[0] == Event::<H>::Quit);
        assert(cycle(reg, before, settings).1 =~= Seq::<LineView>::empty());
    } else {
        let first = step(reg, before[0], settings);
        assert(events[0] == before[0]);
        assert(!first.2) by {
            assert(!(before[0] is Quit));
        }
        let tail = before.subrange(1, before.len() as int);
        assert(events.subrange(1, events.len() as int) =~= tail + seq![Event::Quit] + after);
        lemma_quit_ends_cycle(first.0, tail, after, settings);
        let rest = cycle(first.0, tail, settings);
        assert(cycle(reg, before, settings) == (rest.0, first.1 + rest.1, rest.2));
    }
}

} // verus!
