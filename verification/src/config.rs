//! The configuration of the window manager and its defaults.
use vstd::prelude::*;
use std::collections::BTreeMap;
use crate::geometry::Color;
use crate::layout::LayoutTag;
use crate::models::Direction;

verus! {

/// The X modifier mask of the Shift key.
pub const SHIFT_MASK: u32 = 1;

/// The X modifier mask of the Mod4 (super) key.
pub const MOD4_MASK: u32 = 64;

/// Largest absolute value of a configured length (border, gap, decoration)
/// for which the layouts are computed: the largest length that X carries,
/// whose border widths and window sizes are 16-bit cardinals.
pub const LENGTH_LIMIT: i32 = 65_535;

#[derive(Clone, Copy, Debug, PartialEq, Eq, Structural)]
pub enum Axis {
    Horizontal,
    Vertical,
}

/// The key of a binding: a named key, or any of the number keys 1 to 9.
#[derive(Clone, Debug, PartialEq, Eq)]
pub enum Key {
    Letter(String),
    Number,
}

/// When a configured command runs.
#[derive(Clone, Copy, Debug, PartialEq, Eq, Structural)]
pub enum ExecTime {
    Pre,
    Post,
    Now,
}

/// A program to start, with its arguments.
#[derive(Clone, Debug, PartialEq, Eq)]
pub struct Command {
    pub exec_time: ExecTime,
    pub program: String,
    pub args: Vec<String>,
}

/// What a key binding does.
#[derive(Clone, Debug, PartialEq, Eq)]
pub enum KeyEffect {
    Snap(Direction),
    Resize(i32, Axis),
    MoveToWorkspace,
    ChangeCurrentWorkspace,
    CirculateLayout,
    Center,
    Reorder,
    OpenTerm,
    Kill,
    Exit,
    ShiftWindow(Direction),
    SwapMaster,
    ToggleMonocle,
    ToggleMaximize,
    Custom(Command),
}

/// A key binding as it is written in the configuration.
#[derive(Clone, Debug, PartialEq, Eq)]
pub struct KeyAction {
    pub mod_key: Option<String>,
    pub key: Key,
    pub effect: KeyEffect,
}

/// The configuration.
#[derive(Clone, Debug)]
pub struct Config {
    pub super_key: u32,
    pub mod_key: u32,
    pub decorate: bool,
    pub decoration_height: i32,
    pub border_width: i32,
    pub inner_border_width: i32,
    pub border_color: Color,
    pub background_color: Color,
    pub focused_background_color: Color,
    pub outer_gap: i32,
    pub inner_gap: i32,
    pub smart_gaps: bool,
    pub default_layout: LayoutTag,
    pub key_bindings: Vec<KeyAction>,
    pub workspaces: BTreeMap<u8, String>,
    pub term: String,
    pub commands: Vec<Command>,
}

/// A configured length lies in the range on which layouts are computed.
pub open spec fn length_in_range(v: int) -> bool {
    -LENGTH_LIMIT <= v <= LENGTH_LIMIT
}

impl Config {
    /// The lengths that the layouts read lie in the computable range.
    pub open spec fn in_range(&self) -> bool {
        &&& length_in_range(self.decoration_height as int)
        &&& length_in_range(self.border_width as int)
        &&& length_in_range(self.inner_border_width as int)
        &&& length_in_range(self.outer_gap as int)
        &&& length_in_range(self.inner_gap as int)
    }

    /// Tests `in_range`.
    pub fn lengths_in_range(&self) -> (r: bool)
        ensures
            r == self.in_range(),
    {
        -LENGTH_LIMIT <= self.decoration_height && self.decoration_height <= LENGTH_LIMIT
            && -LENGTH_LIMIT <= self.border_width && self.border_width <= LENGTH_LIMIT
            && -LENGTH_LIMIT <= self.inner_border_width && self.inner_border_width <= LENGTH_LIMIT
            && -LENGTH_LIMIT <= self.outer_gap && self.outer_gap <= LENGTH_LIMIT
            && -LENGTH_LIMIT <= self.inner_gap && self.inner_gap <= LENGTH_LIMIT
    }

    /// The default configuration: Mod4 (the windows key) as super key and
    /// as mod key, no decoration, decorations 20 high, borders 2 wide, no
    /// gaps, the floating layout, the key bindings of `documented_bindings`,
    /// workspaces "1" to "9", `xterm` as terminal and no commands.
    pub fn default() -> (c: Config)
        ensures
            c.super_key == MOD4_MASK,
            c.mod_key == MOD4_MASK,
            c.decorate == default_decorate_value(),
            c.decoration_height == 20,
            c.border_width == 2,
            c.inner_border_width == 0,
            c.border_color == Color::DefaultBorder,
            c.background_color == Color::DefaultBackground,
            c.focused_background_color == Color::DefaultFocusedBackground,
            c.outer_gap == 0,
            c.inner_gap == 0,
            c.smart_gaps == false,
            c.default_layout == LayoutTag::Floating,
            documented_bindings(c.key_bindings@),
            default_workspaces_map(c.workspaces),
            c.term@ == "xterm"@,
            c.commands@.len() == 0,
            c.in_range(),
    {
        Config {
            super_key: MOD4_MASK,
            mod_key: MOD4_MASK,
            decorate: default_decorate(),
            decoration_height: default_decoration_height(),
            border_width: default_border_width(),
            inner_border_width: default_inner_border_width(),
            border_color: default_border_color(),
            background_color: default_background_color(),
            focused_background_color: default_focused_background_color(),
            outer_gap: default_outer_gap(),
            inner_gap: default_inner_gap(),
            smart_gaps: default_smart_gaps(),
            default_layout: default_layout(),
            key_bindings: default_key_bindings(),
            workspaces: default_workspaces(),
            term: default_terminal(),
            commands: default_commands(),
        }
    }
}

pub open spec fn default_decorate_value() -> bool {
    false
}

pub fn default_decorate() -> (b: bool)
    ensures
        b == default_decorate_value(),
{
    false
}

pub fn default_decoration_height() -> (h: i32)
    ensures
        h == 20,
{
    20
}

pub fn default_border_width() -> (w: i32)
    ensures
        w == 2,
{
    2
}

pub fn default_inner_border_width() -> (w: i32)
    ensures
        w == 0,
{
    0
}

pub fn default_border_color() -> (c: Color)
    ensures
        c == Color::DefaultBorder,
{
    Color::DefaultBorder
}

pub fn default_background_color() -> (c: Color)
    ensures
        c == Color::DefaultBackground,
{
    Color::DefaultBackground
}

pub fn default_focused_background_color() -> (c: Color)
    ensures
        c == Color::DefaultFocusedBackground,
{
    Color::DefaultFocusedBackground
}

pub fn default_outer_gap() -> (g: i32)
    ensures
        g == 0,
{
    0
}

pub fn default_inner_gap() -> (g: i32)
    ensures
        g == 0,
{
    0
}

pub fn default_smart_gaps() -> (b: bool)
    ensures
        b == false,
{
    false
}

pub fn default_layout() -> (l: LayoutTag)
    ensures
        l == LayoutTag::Floating,
{
    LayoutTag::Floating
}

/// The names of the keys that the default bindings use, in this order.
pub open spec fn key_names() -> Seq<Seq<char>> {
    seq!["Return"@, "Right"@, "Left"@, "Down"@, "Up"@, "l"@, "h"@, "j"@, "k"@, "m"@]
}

/// The number of default bindings.
pub const DOCUMENTED_BINDINGS: usize = 17;

/// The `i`th default binding: whether it asks for Shift besides the mod
/// key, the position in `key_names` of its key (`-1` for the number keys),
/// and its effect.  With `mod` the mod key:
/// `mod + number` shows that workspace; `shift + mod + number` moves the
/// focused window there; `mod + Return` starts the terminal;
/// `shift + mod + l` cycles the layout; `mod + Right/Left/Down/Up` and
/// `mod + l/h/j/k` shift the window (snap it to an edge, or move the focus
/// in the column layout); `shift + mod + Right/Left/Down/Up` resize the
/// window by 10 pixels; `mod + m` swaps the master window.
pub open spec fn documented_binding(i: int) -> (bool, int, KeyEffect) {
    if i == 0 {
        (false, -1, KeyEffect::ChangeCurrentWorkspace)
    } else if i == 1 {
        (true, -1, KeyEffect::MoveToWorkspace)
    } else if i == 2 {
        (false, 0, KeyEffect::OpenTerm)
    } else if i == 3 {
        (true, 5, KeyEffect::CirculateLayout)
    } else if i == 4 {
        (false, 1, KeyEffect::ShiftWindow(Direction::East))
    } else if i == 5 {
        (false, 5, KeyEffect::ShiftWindow(Direction::East))
    } else if i == 6 {
        (false, 2, KeyEffect::ShiftWindow(Direction::West))
    } else if i == 7 {
        (false, 6, KeyEffect::ShiftWindow(Direction::West))
    } else if i == 8 {
        (false, 3, KeyEffect::ShiftWindow(Direction::South))
    } else if i == 9 {
        (false, 7, KeyEffect::ShiftWindow(Direction::South))
    } else if i == 10 {
        (false, 4, KeyEffect::ShiftWindow(Direction::North))
    } else if i == 11 {
        (false, 8, KeyEffect::ShiftWindow(Direction::North))
    } else if i == 12 {
        (true, 1, KeyEffect::Resize(10i32, Axis::Horizontal))
    } else if i == 13 {
        (true, 2, KeyEffect::Resize(-10i32, Axis::Horizontal))
    } else if i == 14 {
        (true, 3, KeyEffect::Resize(10i32, Axis::Vertical))
    } else if i == 15 {
        (true, 4, KeyEffect::Resize(-10i32, Axis::Vertical))
    } else {
        (false, 9, KeyEffect::SwapMaster)
    }
}

/// Binding `b` is written as `d` says (see `documented_binding`).
pub open spec fn binding_is(b: KeyAction, d: (bool, int, KeyEffect)) -> bool {
    &&& (b.mod_key is Some <==> d.0)
    &&& d.0 ==> b.mod_key->0@ == "Shift"@
    &&& (b.key is Number <==> d.1 < 0)
    &&& d.1 >= 0 ==> (b.key matches Key::Letter(s) && s@ == key_names()[d.1])
    &&& b.effect == d.2
}

/// `v` holds the default bindings, in order.
pub open spec fn documented_bindings(v: Seq<KeyAction>) -> bool {
    &&& v.len() == DOCUMENTED_BINDINGS
    &&& forall|i: int| 0 <= i < DOCUMENTED_BINDINGS ==> #[trigger] binding_is(v[i], documented_binding(i))
}

/// A binding with Shift besides the mod key (`shift`) or none, for the key
/// named `key` or, without a name, the number keys.
fn binding(shift: bool, key: Option<&str>, effect: KeyEffect) -> (b: KeyAction)
    ensures
        b.mod_key is Some <==> shift,
        shift ==> b.mod_key->0@ == "Shift"@,
        b.key is Number <==> key is None,
        key matches Some(k) ==> (b.key matches Key::Letter(s) && s@ == k@),
        b.effect == effect,
{
    let mod_key = if shift { Some("Shift".to_string()) } else { None };
    let key = match key {
        Some(k) => Key::Letter(k.to_string()),
        None => Key::Number,
    };
    KeyAction { mod_key, key, effect }
}

/// The default key bindings; see `documented_binding`.
pub fn default_key_bindings() -> (v: Vec<KeyAction>)
    ensures
        documented_bindings(v@),
{
    let mut v: Vec<KeyAction> = Vec::new();
    v.push(binding(false, None, KeyEffect::ChangeCurrentWorkspace));
    v.push(binding(true, None, KeyEffect::MoveToWorkspace));
    v.push(binding(false, Some("Return"), KeyEffect::OpenTerm));
    v.push(binding(true, Some("l"), KeyEffect::CirculateLayout));
    v.push(binding(false, Some("Right"), KeyEffect::ShiftWindow(Direction::East)));
    v.push(binding(false, Some("l"), KeyEffect::ShiftWindow(Direction::East)));
    v.push(binding(false, Some("Left"), KeyEffect::ShiftWindow(Direction::West)));
    v.push(binding(false, Some("h"), KeyEffect::ShiftWindow(Direction::West)));
    v.push(binding(false, Some("Down"), KeyEffect::ShiftWindow(Direction::South)));
    v.push(binding(false, Some("j"), KeyEffect::ShiftWindow(Direction::South)));
    v.push(binding(false, Some("Up"), KeyEffect::ShiftWindow(Direction::North)));
    v.push(binding(false, Some("k"), KeyEffect::ShiftWindow(Direction::North)));
    v.push(binding(true, Some("Right"), KeyEffect::Resize(10, Axis::Horizontal)));
    v.push(binding(true, Some("Left"), KeyEffect::Resize(-10, Axis::Horizontal)));
    v.push(binding(true, Some("Down"), KeyEffect::Resize(10, Axis::Vertical)));
    v.push(binding(true, Some("Up"), KeyEffect::Resize(-10, Axis::Vertical)));
    v.push(binding(false, Some("m"), KeyEffect::SwapMaster));
    proof {
        assert forall|i: int| 0 <= i < DOCUMENTED_BINDINGS implies #[trigger] binding_is(v@[i], documented_binding(i)) by {
        }
    }
    v
}

/// The name of workspace `i`, for `1 <= i <= 9`: its digit.
pub open spec fn digit_name(i: u8) -> Seq<char> {
    seq![(('0' as u8) + i) as char]
}

/// The workspaces 1 to 9, each named by its digit.
pub open spec fn default_workspaces_map(m: BTreeMap<u8, String>) -> bool {
    &&& forall|k: u8| #[trigger] m@.contains_key(k) <==> 1 <= k <= 9
    &&& forall|k: u8| 1 <= k <= 9 ==> (#[trigger] m@[k])@ == digit_name(k)
}

pub fn default_workspaces() -> (m: BTreeMap<u8, String>)
    ensures
        default_workspaces_map(m),
{
    broadcast use vstd::laws_cmp::group_laws_cmp, vstd::string::group_string_axioms;

    proof {
        reveal_strlit("1");
        reveal_strlit("2");
        reveal_strlit("3");
        reveal_strlit("4");
        reveal_strlit("5");
        reveal_strlit("6");
        reveal_strlit("7");
        reveal_strlit("8");
        reveal_strlit("9");
    }
    assert(vstd::laws_cmp::obeys_cmp::<u8>());
    let mut workspaces: BTreeMap<u8, String> = BTreeMap::new();
    workspaces.insert(1, "1".to_string());
    workspaces.insert(2, "2".to_string());
    workspaces.insert(3, "3".to_string());
    workspaces.insert(4, "4".to_string());
    workspaces.insert(5, "5".to_string());
    workspaces.insert(6, "6".to_string());
    workspaces.insert(7, "7".to_string());
    workspaces.insert(8, "8".to_string());
    workspaces.insert(9, "9".to_string());
    assert(forall|k: u8| 1 <= k <= 9 ==> (workspaces@[k])@ == digit_name(k)) by {
        assert(digit_name(1) =~= "1"@);
        assert(digit_name(2) =~= "2"@);
        assert(digit_name(3) =~= "3"@);
        assert(digit_name(4) =~= "4"@);
        assert(digit_name(5) =~= "5"@);
        assert(digit_name(6) =~= "6"@);
        assert(digit_name(7) =~= "7"@);
        assert(digit_name(8) =~= "8"@);
        assert(digit_name(9) =~= "9"@);
    }
    workspaces
}

pub fn default_terminal() -> (t: String)
    ensures
        t@ == "xterm"@,
{
    "xterm".to_string()
}

pub fn default_commands() -> (v: Vec<Command>)
    ensures
        v@.len() == 0,
{
    Vec::new()
}

/// The optional part of a configuration file.
#[derive(Clone, Debug)]
pub struct ConfigData {
    pub decoration_height: Option<i32>,
    pub border_width: Option<i32>,
    pub inner_border_width: Option<i32>,
    pub border_color: Option<Color>,
    pub background_color: Option<Color>,
    pub focused_background_color: Option<Color>,
    pub workspaces: Option<BTreeMap<u8, String>>,
    pub term: Option<String>,
    pub commands: Option<Vec<Command>>,
}

impl ConfigData {
    /// Every field set to the default of `Config`, but no commands.
    pub fn default() -> (d: ConfigData)
        ensures
            d.decoration_height == Some(20i32),
            d.border_width == Some(2i32),
            d.inner_border_width == Some(0i32),
            d.border_color == Some(Color::DefaultBorder),
            d.background_color == Some(Color::DefaultBackground),
            d.focused_background_color == Some(Color::DefaultFocusedBackground),
            d.workspaces is Some && default_workspaces_map(d.workspaces->0),
            d.term is Some && d.term->0@ == "xterm"@,
            d.commands is None,
    {
        ConfigData {
            decoration_height: Some(20),
            border_width: Some(2),
            inner_border_width: Some(0),
            border_color: Some(Color::DefaultBorder),
            background_color: Some(Color::DefaultBackground),
            focused_background_color: Some(Color::DefaultFocusedBackground),
            workspaces: Some(default_workspaces()),
            term: Some("xterm".to_string()),
            commands: None,
        }
    }
}

/// The positions, in increasing order, of the commands that run at
/// `exec_time`.
pub open spec fn spec_commands_at(commands: Seq<Command>, exec_time: ExecTime) -> Seq<int>
    decreases commands.len(),
{
    if commands.len() == 0 {
        Seq::empty()
    } else {
        let rest = spec_commands_at(commands.drop_last(), exec_time);
        if commands.last().exec_time == exec_time {
            rest.push(commands.len() - 1)
        } else {
            rest
        }
    }
}

/// The positions of the commands that run at `exec_time`.
pub fn commands_at(commands: &Vec<Command>, exec_time: ExecTime) -> (r: Vec<usize>)
    ensures
        r@.map_values(|i: usize| i as int) == spec_commands_at(commands@, exec_time),
{
    let mut r: Vec<usize> = Vec::new();
    let mut i: usize = 0;
    while i < commands.len()
        invariant
            i <= commands@.len(),
            r@.map_values(|k: usize| k as int) == spec_commands_at(commands@.take(i as int), exec_time),
        decreases commands@.len() - i,
    {
        proof {
            assert(commands@.take(i as int + 1).drop_last() =~= commands@.take(i as int));
        }
        if commands[i].exec_time == exec_time {
            r.push(i);
            proof {
                assert(r@.map_values(|k: usize| k as int) =~= spec_commands_at(commands@.take(i as int), exec_time).push(i as int));
            }
        }
        i = i + 1;
    }
    proof {
        assert(commands@.take(commands@.len() as int) =~= commands@);
    }
    r
}


/// The X modifier mask that a modifier's name stands for: Shift, Lock,
/// Control (or Ctrl), Mod1 (or Alt), Mod2, Mod3, Mod4 (or Super) and Mod5
/// have one bit each, in this order; any other name stands for none.
pub open spec fn spec_into_mod(s: Seq<char>) -> u32 {
    if s == "Shift"@ {
        1
    } else if s == "Lock"@ {
        2
    } else if s == "Control"@ || s == "Ctrl"@ {
        4
    } else if s == "Mod1"@ || s == "Alt"@ {
        8
    } else if s == "Mod2"@ {
        16
    } else if s == "Mod3"@ {
        32
    } else if s == "Mod4"@ || s == "Super"@ {
        64
    } else if s == "Mod5"@ {
        128
    } else {
        0
    }
}

/// Whether `s` is `name`.
fn is_named(s: &String, name: &str) -> (r: bool)
    ensures
        r == (s@ == name@),
{
    *s == name.to_owned()
}

/// See `spec_into_mod`.
pub fn into_mod(s: &String) -> (m: u32)
    ensures
        m == spec_into_mod(s@),
{
    if is_named(s, "Shift") {
        1
    } else if is_named(s, "Lock") {
        2
    } else if is_named(s, "Control") || is_named(s, "Ctrl") {
        4
    } else if is_named(s, "Mod1") || is_named(s, "Alt") {
        8
    } else if is_named(s, "Mod2") {
        16
    } else if is_named(s, "Mod3") {
        32
    } else if is_named(s, "Mod4") || is_named(s, "Super") {
        64
    } else if is_named(s, "Mod5") {
        128
    } else {
        0
    }
}

/// The super key named `s`: `None` when the name stands for no modifier.
pub fn super_mask(s: &String) -> (r: Option<u32>)
    ensures
        spec_into_mod(s@) == 0 ==> r is None,
        spec_into_mod(s@) != 0 ==> r == Some(spec_into_mod(s@)),
{
    let m = into_mod(s);
    if m != 0 {
        Some(m)
    } else {
        None
    }
}

} // verus!
