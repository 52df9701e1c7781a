use gamepad_events::dispatch::{
    handle_axis_motion, handle_button_down, handle_button_up, handle_event, handle_gamepad_added,
    handle_gamepad_removed, load_mappings, run_cycle, Event, OpenedGamepad, Settings,
};
use gamepad_events::names::{get_axis_name, get_button_name, Axis, Button};
use gamepad_events::registry::DeviceRegistry;
use gamepad_events::text::{
    added_line, axis_line, button_line, mapping_line, open_failed_line, push_decimal,
    push_signed_decimal, removed_line, Line,
};

const ALL_AXES: [Axis; 6] = [
    Axis::LeftX,
    Axis::LeftY,
    Axis::RightX,
    Axis::RightY,
    Axis::TriggerLeft,
    Axis::TriggerRight,
];

const ALL_BUTTONS: [Button; 15] = [
    Button::A,
    Button::B,
    Button::X,
    Button::Y,
    Button::Back,
    Button::Guide,
    Button::Start,
    Button::LeftStick,
    Button::RightStick,
    Button::LeftShoulder,
    Button::RightShoulder,
    Button::DPadUp,
    Button::DPadDown,
    Button::DPadLeft,
    Button::DPadRight,
];

fn opened(id: u32, handle: &'static str, mapping: &str) -> Option<OpenedGamepad<&'static str>> {
    Some(OpenedGamepad { id, handle, mapping: mapping.to_string() })
}

fn out(s: &str) -> Line {
    Line::Stdout(s.to_string())
}

fn err(s: &str) -> Line {
    Line::Stderr(s.to_string())
}

#[test]
fn axis_names_match_enumerants() {
    assert_eq!(get_axis_name(Axis::LeftX), "LeftX");
    assert_eq!(get_axis_name(Axis::LeftY), "LeftY");
    assert_eq!(get_axis_name(Axis::RightX), "RightX");
    assert_eq!(get_axis_name(Axis::RightY), "RightY");
    assert_eq!(get_axis_name(Axis::TriggerLeft), "TriggerLeft");
    assert_eq!(get_axis_name(Axis::TriggerRight), "TriggerRight");
}

#[test]
fn button_names_match_enumerants() {
    assert_eq!(get_button_name(Button::A), "A");
    assert_eq!(get_button_name(Button::Back), "Back");
    assert_eq!(get_button_name(Button::Guide), "Guide");
    assert_eq!(get_button_name(Button::LeftShoulder), "LeftShoulder");
    assert_eq!(get_button_name(Button::DPadUp), "DPadUp");
    assert_eq!(get_button_name(Button::DPadRight), "DPadRight");
}

#[test]
fn names_are_nonempty_and_distinct() {
    for (i, a) in ALL_AXES.iter().enumerate() {
        assert!(!get_axis_name(*a).is_empty());
        for b in ALL_AXES.iter().skip(i + 1) {
            assert_ne!(get_axis_name(*a), get_axis_name(*b));
        }
    }
    for (i, a) in ALL_BUTTONS.iter().enumerate() {
        assert!(!get_button_name(*a).is_empty());
        for b in ALL_BUTTONS.iter().skip(i + 1) {
            assert_ne!(get_button_name(*a), get_button_name(*b));
        }
    }
}

#[test]
fn decimal_text_of_unsigned() {
    for n in [0u32, 7, 10, 15000, 4294967295] {
        let mut s = String::from("x");
        push_decimal(&mut s, n);
        assert_eq!(s, format!("x{}", n));
    }
}

#[test]
fn decimal_text_of_signed() {
    for v in [0i16, -1, 9, -10, 15000, 32767, -32768] {
        let mut s = String::new();
        push_signed_decimal(&mut s, v);
        assert_eq!(s, format!("{}", v));
    }
}

#[test]
fn line_texts() {
    assert_eq!(added_line(7), "Added gamepad 7");
    assert_eq!(removed_line(12), "Removed gamepad 12");
    assert_eq!(open_failed_line(3), "Could not open device 3");
    assert_eq!(mapping_line("abc,Pad,a:b0"), "mapping: abc,Pad,a:b0");
    assert_eq!(axis_line(7, Axis::LeftX, 15000), "id 7: axis LeftX = 15000");
    assert_eq!(axis_line(2, Axis::TriggerRight, -32768), "id 2: axis TriggerRight = -32768");
    assert_eq!(button_line(7, Button::A, true), "id 7: button A = down");
    assert_eq!(button_line(0, Button::DPadUp, false), "id 0: button DPadUp = up");
}

#[test]
fn line_accessors() {
    let l = out("hello");
    assert_eq!(l.text(), "hello");
    assert!(!l.is_error());
    let e = err("oops");
    assert_eq!(e.text(), "oops");
    assert!(e.is_error());
}

#[test]
fn registry_insert_get_remove() {
    let mut reg: DeviceRegistry<u8> = DeviceRegistry::new();
    assert_eq!(reg.len(), 0);
    reg.insert(4, 40);
    reg.insert(5, 50);
    assert!(reg.contains(4));
    assert_eq!(reg.get(5), Some(&50));
    assert_eq!(reg.len(), 2);
    assert_eq!(reg.remove(4), Some(40));
    assert!(!reg.contains(4));
    assert_eq!(reg.remove(4), None);
    assert_eq!(reg.get(4), None);
    assert_eq!(reg.len(), 1);
}

#[test]
fn added_device_is_registered_and_reported() {
    let mut reg = DeviceRegistry::new();
    let lines = handle_gamepad_added(&mut reg, 0, opened(7, "pad", "m"), false);
    assert_eq!(lines, vec![out("Added gamepad 7")]);
    assert_eq!(reg.get(7), Some(&"pad"));
}

#[test]
fn added_device_shows_mapping_when_asked() {
    let mut reg = DeviceRegistry::new();
    let lines = handle_gamepad_added(&mut reg, 1, opened(9, "pad", "030000,Pad,a:b0"), true);
    assert_eq!(lines, vec![out("Added gamepad 9"), out("mapping: 030000,Pad,a:b0")]);
    assert!(reg.contains(9));
}

#[test]
fn failed_open_leaves_registry_unchanged() {
    let mut reg = DeviceRegistry::new();
    reg.insert(1, "one");
    let lines = handle_gamepad_added(&mut reg, 3, None, true);
    assert_eq!(lines, vec![err("Could not open device 3")]);
    assert_eq!(reg.len(), 1);
    assert!(reg.contains(1));
}

#[test]
fn add_then_remove_clears_entry() {
    let mut reg = DeviceRegistry::new();
    reg.insert(2, "other");
    handle_gamepad_added(&mut reg, 0, opened(7, "pad", ""), false);
    assert!(reg.contains(7));
    let line = handle_gamepad_removed(&mut reg, 7);
    assert_eq!(line, out("Removed gamepad 7"));
    assert!(!reg.contains(7));
    assert!(reg.contains(2));
}

#[test]
fn removing_unknown_id_is_noop() {
    let mut reg = DeviceRegistry::new();
    reg.insert(1, "one");
    let line = handle_gamepad_removed(&mut reg, 42);
    assert_eq!(line, out("Removed gamepad 42"));
    assert_eq!(reg.len(), 1);
    assert_eq!(reg.get(1), Some(&"one"));
}

#[test]
fn zero_deadzone_prints_every_value() {
    for v in [0i16, 1, -1, 32767, -32768] {
        let r = handle_axis_motion(3, Axis::RightY, v, 0);
        assert_eq!(r, Some(out(&format!("id 3: axis RightY = {}", v))));
    }
}

#[test]
fn deadzone_suppresses_small_values() {
    assert_eq!(handle_axis_motion(1, Axis::LeftX, 100, 100), None);
    assert_eq!(handle_axis_motion(1, Axis::LeftX, -100, 100), None);
    assert_eq!(handle_axis_motion(1, Axis::LeftX, 0, 100), None);
    assert_eq!(
        handle_axis_motion(1, Axis::LeftX, 101, 100),
        Some(out("id 1: axis LeftX = 101"))
    );
    assert_eq!(
        handle_axis_motion(1, Axis::LeftX, -101, 100),
        Some(out("id 1: axis LeftX = -101"))
    );
    assert_eq!(handle_axis_motion(1, Axis::LeftX, -32768, 32767), Some(out("id 1: axis LeftX = -32768")));
    assert_eq!(handle_axis_motion(1, Axis::LeftX, 32767, 32767), None);
}

#[test]
fn button_lines() {
    assert_eq!(handle_button_down(7, Button::A), out("id 7: button A = down"));
    assert_eq!(handle_button_up(7, Button::Start), out("id 7: button Start = up"));
}

#[test]
fn mapping_load_outcome() {
    assert_eq!(load_mappings(&Ok(3)), None);
    assert_eq!(
        load_mappings(&Err("no such file".to_string())),
        Some(err("Could not load mappings file"))
    );
}

#[test]
fn quit_event_stops() {
    let mut reg: DeviceRegistry<u8> = DeviceRegistry::new();
    let (lines, quit) = handle_event(&mut reg, Event::Quit, Settings { show_mappings: false, deadzone: 0 });
    assert!(lines.is_empty());
    assert!(quit);
}

#[test]
fn end_to_end_session() {
    let mut reg = DeviceRegistry::new();
    let events = vec![
        Event::DeviceAdded { index: 0, opened: opened(7, "pad", "") },
        Event::AxisMotion { id: 7, axis: Axis::LeftX, value: 15000 },
        Event::ButtonDown { id: 7, button: Button::A },
        Event::DeviceRemoved { id: 7 },
        Event::Quit,
    ];
    let (lines, quit) = run_cycle(&mut reg, events, Settings { show_mappings: false, deadzone: 0 });
    assert_eq!(
        lines,
        vec![
            out("Added gamepad 7"),
            out("id 7: axis LeftX = 15000"),
            out("id 7: button A = down"),
            out("Removed gamepad 7"),
        ]
    );
    assert!(quit);
    assert_eq!(reg.len(), 0);
}

#[test]
fn events_after_quit_are_not_handled() {
    let mut reg = DeviceRegistry::new();
    let events = vec![
        Event::ButtonUp { id: 1, button: Button::B },
        Event::Quit,
        Event::DeviceAdded { index: 0, opened: opened(5, "pad", "") },
        Event::ButtonDown { id: 5, button: Button::X },
    ];
    let (lines, quit) = run_cycle(&mut reg, events, Settings { show_mappings: true, deadzone: 0 });
    assert_eq!(lines, vec![out("id 1: button B = up")]);
    assert!(quit);
    assert!(!reg.contains(5));
}

#[test]
fn cycle_without_quit_keeps_running() {
    let mut reg = DeviceRegistry::new();
    let events = vec![
        Event::DeviceAdded { index: 2, opened: None },
        Event::DeviceAdded { index: 0, opened: opened(4, "pad", "map") },
        Event::AxisMotion { id: 4, axis: Axis::TriggerLeft, value: 10 },
        Event::AxisMotion { id: 4, axis: Axis::TriggerLeft, value: -500 },
    ];
    let (lines, quit) = run_cycle(&mut reg, events, Settings { show_mappings: true, deadzone: 20 });
    assert_eq!(
        lines,
        vec![
            err("Could not open device 2"),
            out("Added gamepad 4"),
            out("mapping: map"),
            out("id 4: axis TriggerLeft = -500"),
        ]
    );
    assert!(!quit);
    assert!(reg.contains(4));
}
