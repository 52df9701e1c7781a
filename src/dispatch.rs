//! What each controller event does to the device table, and what it prints.
use vstd::prelude::*;
use crate::names::{Axis, Button};
use crate::registry::DeviceRegistry;
use crate::text::{
    Line, LineView, lines_view, added_line, mapping_line, open_failed_line, removed_line,
    axis_line, button_line, added_text, mapping_text, open_failed_text, removed_text, axis_text,
    button_text, mappings_failed_text,
};
use vstd::string::StringExecFns;

verus! {

/// A controller that the input subsystem opened: its instance id, the handle
/// that keeps it open, and its mapping string.
pub struct OpenedGamepad<H> {
    pub id: u32,
    pub handle: H,
    pub mapping: String,
}

/// A controller event, as the input subsystem delivers it. For a device that
/// was plugged in, `opened` is the outcome of opening it.
pub enum Event<H> {
    DeviceAdded { index: u32, opened: Option<OpenedGamepad<H>> },
    DeviceRemoved { id: u32 },
    AxisMotion { id: u32, axis: Axis, value: i16 },
    ButtonDown { id: u32, button: Button },
    ButtonUp { id: u32, button: Button },
    Quit,
}

/// How events are reported: whether a new device's mapping is shown, and the
/// deadzone below which axis motion is not reported (0 reports all of it).
#[derive(Clone, Copy, Debug, PartialEq, Eq)]
pub struct Settings {
    pub show_mappings: bool,
    pub deadzone: u16,
}

/// Whether an axis value is reported under a deadzone.
pub open spec fn axis_shown(value: i16, deadzone: u16) -> bool {
    deadzone == 0 || (deadzone as int) < (if value < 0 { -(value as int) } else { value as int })
}

/// The lines printed for a device that was opened.
pub open spec fn added_lines(id: u32, mapping: Seq<char>, show_mappings: bool) -> Seq<LineView> {
    if show_mappings {
        seq![LineView::Stdout(added_text(id)), LineView::Stdout(mapping_text(mapping))]
    } else {
        seq![LineView::Stdout(added_text(id))]
    }
}

/// The lines printed for axis motion.
pub open spec fn axis_lines(id: u32, axis: Axis, value: i16, deadzone: u16) -> Seq<LineView> {
    if axis_shown(value, deadzone) {
        seq![LineView::Stdout(axis_text(id, axis, value))]
    } else {
        Seq::empty()
    }
}

/// One event: the device table after it, the lines it prints, and whether it
/// ends the monitor.
pub open spec fn step<H>(reg: Map<u32, H>, event: Event<H>, settings: Settings) -> (
    Map<u32, H>,
    Seq<LineView>,
    bool,
) {
    match event {
        Event::DeviceAdded { index, opened } => match opened {
            Some(g) => (
                reg.insert(g.id, g.handle),
                added_lines(g.id, g.mapping@, settings.show_mappings),
                false,
            ),
            None => (reg, seq![LineView::Stderr(open_failed_text(index))], false),
        },
        Event::DeviceRemoved { id } => (
            reg.remove(id),
            seq![LineView::Stdout(removed_text(id))],
            false,
        ),
        Event::AxisMotion { id, axis, value } => (
            reg,
            axis_lines(id, axis, value, settings.deadzone),
            false,
        ),
        Event::ButtonDown { id, button } => (
            reg,
            seq![LineView::Stdout(button_text(id, button, true))],
            false,
        ),
        Event::ButtonUp { id, button } => (
            reg,
            seq![LineView::Stdout(button_text(id, button, false))],
            false,
        ),
        Event::Quit => (reg, Seq::empty(), true),
    }
}

/// A batch of events handled in order, stopping at the first `Quit`: the
/// device table after it, the lines printed, and whether a `Quit` was met.
pub open spec fn cycle<H>(reg: Map<u32, H>, events: Seq<Event<H>>, settings: Settings) -> (
    Map<u32, H>,
    Seq<LineView>,
    bool,
)
    decreases events.len(),
{
    if events.len() == 0 {
        (reg, Seq::empty(), false)
    } else {
        let first = step(reg, events[0], settings);
        if first.2 {
            first
        } else {
            let rest = cycle(first.0, events.subrange(1, events.len() as int), settings);
            (rest.0, first.1 + rest.1, rest.2)
        }
    }
}

/// Registers a device that was plugged in and reports it; where opening it
/// failed, reports that instead and leaves the table as it was.
pub fn handle_gamepad_added<H>(
    gamepads: &mut DeviceRegistry<H>,
    joystick_index: u32,
    opened: Option<OpenedGamepad<H>>,
    show_mappings: bool,
) -> (lines: Vec<Line>)
    ensures
        match opened {
            Some(g) => {
                &&& final(gamepads)@ == old(gamepads)@.insert(g.id, g.handle)
                &&& lines_view(lines@) == added_lines(g.id, g.mapping@, show_mappings)
            },
            None => {
                &&& final(gamepads)@ == old(gamepads)@
                &&& lines_view(lines@) == seq![LineView::Stderr(open_failed_text(joystick_index))]
            },
        },
{
    match opened {
        Some(g) => {
            let id = g.id;
            let mut lines: Vec<Line> = Vec::new();
            lines.push(Line::Stdout(added_line(id)));
            if show_mappings {
                lines.push(Line::Stdout(mapping_line(g.mapping.as_str())));
            }
            gamepads.insert(id, g.handle);
            assert(lines_view(lines@) =~= added_lines(id, g.mapping@, show_mappings));
            lines
        },
        None => {
            let lines = vec![Line::Stderr(open_failed_line(joystick_index))];
            assert(lines_view(lines@) =~= seq![LineView::Stderr(open_failed_text(joystick_index))]);
            lines
        },
    }
}

/// Drops the device stored under `joystick_id`, if any, and reports the removal.
pub fn handle_gamepad_removed<H>(gamepads: &mut DeviceRegistry<H>, joystick_id: u32) -> (line: Line)
    ensures
        final(gamepads)@ == old(gamepads)@.remove(joystick_id),
        line@ == LineView::Stdout(removed_text(joystick_id)),
{
    let _ = gamepads.remove(joystick_id);
    Line::Stdout(removed_line(joystick_id))
}

/// Reports axis motion, unless its magnitude is within a nonzero deadzone.
pub fn handle_axis_motion(joystick_id: u32, axis: Axis, value: i16, deadzone: u16) -> (r: Option<Line>)
    ensures
        match r {
            Some(l) => axis_shown(value, deadzone) && l@ == LineView::Stdout(
                axis_text(joystick_id, axis, value),
            ),
            None => !axis_shown(value, deadzone),
        },
{
    let magnitude: u16 = if value < 0 {
        (0 - (value as i32)) as u16
    } else {
        value as u16
    };
    if deadzone == 0 || deadzone < magnitude {
        Some(Line::Stdout(axis_line(joystick_id, axis, value)))
    } else {
        None
    }
}

/// Reports a button press.
pub fn handle_button_down(joystick_id: u32, button: Button) -> (line: Line)
    ensures
        line@ == LineView::Stdout(button_text(joystick_id, button, true)),
{
    Line::Stdout(button_line(joystick_id, button, true))
}

/// Reports a button release.
pub fn handle_button_up(joystick_id: u32, button: Button) -> (line: Line)
    ensures
        line@ == LineView::Stdout(button_text(joystick_id, button, false)),
{
    Line::Stdout(button_line(joystick_id, button, false))
}

/// Reports the outcome of loading a mappings file: nothing when it loaded
/// (the count of mappings it added is not reported), an error line when not.
pub fn load_mappings(outcome: &Result<i32, String>) -> (r: Option<Line>)
    ensures
        outcome is Ok ==> r is None,
        outcome is Err ==> r is Some && r->Some_0@ == LineView::Stderr(mappings_failed_text()),
{
    match outcome {
        Ok(_) => None,
        Err(_) => Some(Line::Stderr(String::from_str("Could not load mappings file"))),
    }
}

/// Handles one event: updates the device table and returns the lines to
/// print, with whether the event ends the monitor.
pub fn handle_event<H>(gamepads: &mut DeviceRegistry<H>, event: Event<H>, settings: Settings) -> (r: (
    Vec<Line>,
    bool,
))
    ensures
        step(old(gamepads)@, event, settings) == (final(gamepads)@, lines_view(r.0@), r.1),
{
    match event {
        Event::DeviceAdded { index, opened } => {
            let lines = handle_gamepad_added(gamepads, index, opened, settings.show_mappings);
            (lines, false)
        },
        Event::DeviceRemoved { id } => {
            let lines = vec![handle_gamepad_removed(gamepads, id)];
            assert(lines_view(lines@) =~= seq![LineView::Stdout(removed_text(id))]);
            (lines, false)
        },
        Event::AxisMotion { id, axis, value } => {
            let mut lines: Vec<Line> = Vec::new();
            match handle_axis_motion(id, axis, value, settings.deadzone) {
                Some(l) => lines.push(l),
                None => {},
            }
            assert(lines_view(lines@) =~= axis_lines(id, axis, value, settings.deadzone));
            (lines, false)
        },
        Event::ButtonDown { id, button } => {
            let lines = vec![handle_button_down(id, button)];
            assert(lines_view(lines@) =~= seq![LineView::Stdout(button_text(id, button, true))]);
            (lines, false)
        },
        Event::ButtonUp { id, button } => {
            let lines = vec![handle_button_up(id, button)];
            assert(lines_view(lines@) =~= seq![LineView::Stdout(button_text(id, button, false))]);
            (lines, false)
        },
        Event::Quit => {
            let lines: Vec<Line> = Vec::new();
            assert(lines_view(lines@) =~= Seq::<LineView>::empty());
            (lines, true)
        },
    }
}

/// Handles a batch of queued events in order, up to and including the first
/// `Quit`; returns the lines to print and whether a `Quit` was met.
pub fn run_cycle<H>(gamepads: &mut DeviceRegistry<H>, events: Vec<Event<H>>, settings: Settings) -> (r: (
    Vec<Line>,
    bool,
))
    ensures
        cycle(old(gamepads)@, events@, settings) == (final(gamepads)@, lines_view(r.0@), r.1),
{
    let mut events = events;
    let mut lines: Vec<Line> = Vec::new();
    let mut quit = false;
    let ghost all = events@;
    let ghost start = gamepads@;
    assert(lines_view(lines@) =~= Seq::<LineView>::empty());
    while !quit && events.len() > 0
        invariant
            !quit ==> ({
                let rest = cycle(gamepads@, events@, settings);
                cycle(start, all, settings) == (rest.0, lines_view(lines@) + rest.1, rest.2)
            }),
            quit ==> cycle(start, all, settings) == (gamepads@, lines_view(lines@), true),
        decreases events.len(),
    {
        let ghost before = lines@;
        let ghost queued = events@;
        let ghost table = gamepads@;
        let event = events.remove(0);
        assert(event == queued[0]);
        assert(events@ =~= queued.subrange(1, queued.len() as int));
        let (mut out, stop) = handle_event(gamepads, event, settings);
        let ghost printed = out@;
        lines.append(&mut out);
        assert(lines_view(lines@) =~= lines_view(before) + lines_view(printed));
        if stop {
            assert(cycle(table, queued, settings) == step(table, queued[0], settings));
            quit = true;
        } else {
            assert(lines_view(before) + (lines_view(printed) + cycle(gamepads@, events@, settings).1)
                =~= lines_view(lines@) + cycle(gamepads@, events@, settings).1);
        }
    }
    if !quit {
        assert(lines_view(lines@) + Seq::<LineView>::empty() =~= lines_view(lines@));
    }
    (lines, quit)
}

} // verus!
