//! Decimal rendering of integers and the lines the monitor prints.
use vstd::prelude::*;
use vstd::string::StringExecFns;
use crate::names::{Axis, Button, axis_name, button_name, get_axis_name, get_button_name};

verus! {

/// The character of a decimal digit.
pub open spec fn digit_char(d: nat) -> char {
    if d == 0 { '0' }
    else if d == 1 { '1' }
    else if d == 2 { '2' }
    else if d == 3 { '3' }
    else if d == 4 { '4' }
    else if d == 5 { '5' }
    else if d == 6 { '6' }
    else if d == 7 { '7' }
    else if d == 8 { '8' }
    else { '9' }
}

/// The decimal digits of a natural number, most significant first, no leading zeros.
pub open spec fn decimal(n: nat) -> Seq<char>
    decreases n,
{
    if n < 10 {
        seq![digit_char(n)]
    } else {
        decimal(n / 10).push(digit_char(n % 10))
    }
}

/// The decimal text of an integer, with a leading `-` when it is negative.
pub open spec fn signed_decimal(v: int) -> Seq<char> {
    if v < 0 {
        seq!['-'] + decimal((-v) as nat)
    } else {
        decimal(v as nat)
    }
}

fn digit_str(d: u32) -> (r: &'static str)
    requires
        d < 10,
    ensures
        r@ == seq![digit_char(d as nat)],
{
    proof {
        reveal_strlit("0");
        reveal_strlit("1");
        reveal_strlit("2");
        reveal_strlit("3");
        reveal_strlit("4");
        reveal_strlit("5");
        reveal_strlit("6");
        reveal_strlit("7");
        reveal_strlit("8");
        reveal_strlit("9");
    }
    let r = if d == 0 { "0" }
    else if d == 1 { "1" }
    else if d == 2 { "2" }
    else if d == 3 { "3" }
    else if d == 4 { "4" }
    else if d == 5 { "5" }
    else if d == 6 { "6" }
    else if d == 7 { "7" }
    else if d == 8 { "8" }
    else { "9" };
    assert(r@ =~= seq![digit_char(d as nat)]);
    r
}

/// Appends the decimal digits of `n` to `s`.
pub fn push_decimal(s: &mut String, n: u32)
    ensures
        final(s)@ == old(s)@ + decimal(n as nat),
    decreases n,
{
    if n >= 10 {
        push_decimal(s, n / 10);
    }
    s.append(digit_str(n % 10));
    proof {
        if n >= 10 {
            assert(final(s)@ =~= old(s)@ + decimal(n as nat));
        } else {
            assert(final(s)@ =~= old(s)@ + decimal(n as nat));
        }
    }
}

/// Appends the decimal text of `v`, with its sign, to `s`.
pub fn push_signed_decimal(s: &mut String, v: i16)
    ensures
        final(s)@ == old(s)@ + signed_decimal(v as int),
{
    if v < 0 {
        s.append("-");
        proof { reveal_strlit("-"); }
        let m: u32 = (0 - (v as i32)) as u32;
        push_decimal(s, m);
        assert(final(s)@ =~= old(s)@ + signed_decimal(v as int));
    } else {
        push_decimal(s, v as u32);
    }
}

/// A line written to standard output or to standard error.
#[derive(Debug, PartialEq, Eq)]
pub enum Line {
    Stdout(String),
    Stderr(String),
}

/// What a line is: the stream it goes to and its characters.
pub enum LineView {
    Stdout(Seq<char>),
    Stderr(Seq<char>),
}

impl View for Line {
    type V = LineView;

    open spec fn view(&self) -> LineView {
        match self {
            Line::Stdout(s) => LineView::Stdout(s@),
            Line::Stderr(s) => LineView::Stderr(s@),
        }
    }
}

impl Line {
    /// The characters of the line.
    pub fn text(&self) -> (r: &str)
        ensures
            r@ == match self@ {
                LineView::Stdout(t) => t,
                LineView::Stderr(t) => t,
            },
    {
        match self {
            Line::Stdout(s) => s.as_str(),
            Line::Stderr(s) => s.as_str(),
        }
    }

    /// Whether the line goes to standard error.
    pub fn is_error(&self) -> (r: bool)
        ensures
            r == (self@ is Stderr),
    {
        match self {
            Line::Stdout(_) => false,
            Line::Stderr(_) => true,
        }
    }
}

/// The views of a sequence of lines.
pub open spec fn lines_view(lines: Seq<Line>) -> Seq<LineView> {
    lines.map_values(|l: Line| l@)
}

/// The line for a device that was opened.
pub open spec fn added_text(id: u32) -> Seq<char> {
    "Added gamepad "@ + decimal(id as nat)
}

/// The line that shows a device's mapping string.
pub open spec fn mapping_text(mapping: Seq<char>) -> Seq<char> {
    "mapping: "@ + mapping
}

/// The error line for a device that could not be opened.
pub open spec fn open_failed_text(index: u32) -> Seq<char> {
    "Could not open device "@ + decimal(index as nat)
}

/// The line for a device that was unplugged.
pub open spec fn removed_text(id: u32) -> Seq<char> {
    "Removed gamepad "@ + decimal(id as nat)
}

/// The line for axis motion.
pub open spec fn axis_text(id: u32, axis: Axis, value: i16) -> Seq<char> {
    "id "@ + decimal(id as nat) + ": axis "@ + axis_name(axis) + " = "@ + signed_decimal(
        value as int,
    )
}

/// The line for a button press (`down`) or release.
pub open spec fn button_text(id: u32, button: Button, down: bool) -> Seq<char> {
    "id "@ + decimal(id as nat) + ": button "@ + button_name(button) + " = "@ + (if down {
        "down"@
    } else {
        "up"@
    })
}

/// The error line for a mappings file that could not be loaded.
pub open spec fn mappings_failed_text() -> Seq<char> {
    "Could not load mappings file"@
}

/// `Added gamepad {id}`.
pub fn added_line(id: u32) -> (r: String)
    ensures
        r@ == added_text(id),
{
    let mut s = String::from_str("Added gamepad ");
    push_decimal(&mut s, id);
    s
}

/// `mapping: {mapping}`.
pub fn mapping_line(mapping: &str) -> (r: String)
    ensures
        r@ == mapping_text(mapping@),
{
    let mut s = String::from_str("mapping: ");
    s.append(mapping);
    s
}

/// `Could not open device {index}`.
pub fn open_failed_line(index: u32) -> (r: String)
    ensures
        r@ == open_failed_text(index),
{
    let mut s = String::from_str("Could not open device ");
    push_decimal(&mut s, index);
    s
}

/// `Removed gamepad {id}`.
pub fn removed_line(id: u32) -> (r: String)
    ensures
        r@ == removed_text(id),
{
    let mut s = String::from_str("Removed gamepad ");
    push_decimal(&mut s, id);
    s
}

/// `id {id}: axis {name} = {value}`.
pub fn axis_line(id: u32, axis: Axis, value: i16) -> (r: String)
    ensures
        r@ == axis_text(id, axis, value),
{
    let mut s = String::from_str("id ");
    push_decimal(&mut s, id);
    s.append(": axis ");
    s.append(get_axis_name(axis));
    s.append(" = ");
    push_signed_decimal(&mut s, value);
    s
}

/// `id {id}: button {name} = down` or `... = up`.
pub fn button_line(id: u32, button: Button, down: bool) -> (r: String)
    ensures
        r@ == button_text(id, button, down),
{
    let mut s = String::from_str("id ");
    push_decimal(&mut s, id);
    s.append(": button ");
    s.append(get_button_name(button));
    s.append(" = ");
    if down {
        s.append("down");
    } else {
        s.append("up");
    }
    s
}

} // verus!
