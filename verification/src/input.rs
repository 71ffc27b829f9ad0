//! Plain-value models of the seat input that the panel receives and of the
//! GUI input events that it produces.

use vstd::prelude::*;

verus! {

/// A pointer button as the GUI toolkit names it.
#[derive(Clone, Copy, Debug, PartialEq, Eq, Structural)]
pub enum PointerButton {
    Primary,
    Secondary,
    Middle,
}

/// Linux input event code of the left mouse button (`BTN_LEFT`).
pub const BTN_LEFT: u32 = 0x110;

/// Linux input event code of the right mouse button (`BTN_RIGHT`).
pub const BTN_RIGHT: u32 = 0x111;

/// Linux input event code of the middle mouse button (`BTN_MIDDLE`).
pub const BTN_MIDDLE: u32 = 0x112;

/// The GUI button that a Linux button code stands for, if any.
pub open spec fn button_of_code(code: u32) -> Option<PointerButton> {
    if code == BTN_LEFT {
        Some(PointerButton::Primary)
    } else if code == BTN_RIGHT {
        Some(PointerButton::Secondary)
    } else if code == BTN_MIDDLE {
        Some(PointerButton::Middle)
    } else {
        None
    }
}

/// Maps the button code of a Wayland pointer event to a GUI pointer button.
pub fn wayland_to_egui_button(button: u32) -> (result: Option<PointerButton>)
    ensures
        result == button_of_code(button),
{
    if button == BTN_LEFT {
        Some(PointerButton::Primary)
    } else if button == BTN_RIGHT {
        Some(PointerButton::Secondary)
    } else if button == BTN_MIDDLE {
        Some(PointerButton::Middle)
    } else {
        None
    }
}

/// A keyboard key as the GUI toolkit names it, restricted to the keys the
/// panel forwards.
#[derive(Clone, Copy, Debug, PartialEq, Eq, Structural)]
pub enum Key {
    Enter,
    Tab,
    Backspace,
    Escape,
    Space,
    ArrowLeft,
    ArrowRight,
    ArrowUp,
    ArrowDown,
    Home,
    End,
    Delete,
    A,
    C,
    V,
    X,
    Z,
}

/// X11 keysym `Return`.
pub const KEYSYM_RETURN: u32 = 0xff0d;

/// X11 keysym `KP_Enter`.
pub const KEYSYM_KP_ENTER: u32 = 0xff8d;

/// X11 keysym `Tab`.
pub const KEYSYM_TAB: u32 = 0xff09;

/// X11 keysym `BackSpace`.
pub const KEYSYM_BACKSPACE: u32 = 0xff08;

/// X11 keysym `Escape`.
pub const KEYSYM_ESCAPE: u32 = 0xff1b;

/// X11 keysym `space`.
pub const KEYSYM_SPACE: u32 = 0x20;

/// X11 keysym `Left`.
pub const KEYSYM_LEFT: u32 = 0xff51;

/// X11 keysym `Right`.
pub const KEYSYM_RIGHT: u32 = 0xff53;

/// X11 keysym `Up`.
pub const KEYSYM_UP: u32 = 0xff52;

/// X11 keysym `Down`.
pub const KEYSYM_DOWN: u32 = 0xff54;

/// X11 keysym `Home`.
pub const KEYSYM_HOME: u32 = 0xff50;

/// X11 keysym `End`.
pub const KEYSYM_END: u32 = 0xff57;

/// X11 keysym `Delete`.
pub const KEYSYM_DELETE: u32 = 0xffff;

/// X11 keysym `a`.
pub const KEYSYM_A: u32 = 0x61;

/// X11 keysym `c`.
pub const KEYSYM_C: u32 = 0x63;

/// X11 keysym `v`.
pub const KEYSYM_V: u32 = 0x76;

/// X11 keysym `x`.
pub const KEYSYM_X: u32 = 0x78;

/// X11 keysym `z`.
pub const KEYSYM_Z: u32 = 0x7a;

/// The GUI key that a keysym stands for, if the panel forwards it.
pub open spec fn key_of_keysym(keysym: u32) -> Option<Key> {
    if keysym == KEYSYM_RETURN || keysym == KEYSYM_KP_ENTER {
        Some(Key::Enter)
    } else if keysym == KEYSYM_TAB {
        Some(Key::Tab)
    } else if keysym == KEYSYM_BACKSPACE {
        Some(Key::Backspace)
    } else if keysym == KEYSYM_ESCAPE {
        Some(Key::Escape)
    } else if keysym == KEYSYM_SPACE {
        Some(Key::Space)
    } else if keysym == KEYSYM_LEFT {
        Some(Key::ArrowLeft)
    } else if keysym == KEYSYM_RIGHT {
        Some(Key::ArrowRight)
    } else if keysym == KEYSYM_UP {
        Some(Key::ArrowUp)
    } else if keysym == KEYSYM_DOWN {
        Some(Key::ArrowDown)
    } else if keysym == KEYSYM_HOME {
        Some(Key::Home)
    } else if keysym == KEYSYM_END {
        Some(Key::End)
    } else if keysym == KEYSYM_DELETE {
        Some(Key::Delete)
    } else if keysym == KEYSYM_A {
        Some(Key::A)
    } else if keysym == KEYSYM_C {
        Some(Key::C)
    } else if keysym == KEYSYM_V {
        Some(Key::V)
    } else if keysym == KEYSYM_X {
        Some(Key::X)
    } else if keysym == KEYSYM_Z {
        Some(Key::Z)
    } else {
        None
    }
}

/// Maps an X11 keysym to the GUI key it stands for; every other keysym gives
/// `None`.
pub fn keysym_to_egui_key(keysym: u32) -> (result: Option<Key>)
    ensures
        result == key_of_keysym(keysym),
{
    match keysym {
        KEYSYM_RETURN | KEYSYM_KP_ENTER => Some(Key::Enter),
        KEYSYM_TAB => Some(Key::Tab),
        KEYSYM_BACKSPACE => Some(Key::Backspace),
        KEYSYM_ESCAPE => Some(Key::Escape),
        KEYSYM_SPACE => Some(Key::Space),
        KEYSYM_LEFT => Some(Key::ArrowLeft),
        KEYSYM_RIGHT => Some(Key::ArrowRight),
        KEYSYM_UP => Some(Key::ArrowUp),
        KEYSYM_DOWN => Some(Key::ArrowDown),
        KEYSYM_HOME => Some(Key::Home),
        KEYSYM_END => Some(Key::End),
        KEYSYM_DELETE => Some(Key::Delete),
        KEYSYM_A => Some(Key::A),
        KEYSYM_C => Some(Key::C),
        KEYSYM_V => Some(Key::V),
        KEYSYM_X => Some(Key::X),
        KEYSYM_Z => Some(Key::Z),
        _ => None,
    }
}

/// The modifier keys as the GUI toolkit sees them.
#[derive(Clone, Copy, Debug, PartialEq, Eq, Structural)]
pub struct Modifiers {
    pub alt: bool,
    pub ctrl: bool,
    pub shift: bool,
    pub mac_cmd: bool,
    pub command: bool,
}

/// No modifier held.
pub open spec fn no_modifiers() -> Modifiers {
    Modifiers { alt: false, ctrl: false, shift: false, mac_cmd: false, command: false }
}

impl Default for Modifiers {
    fn default() -> (result: Modifiers)
        ensures
            result == no_modifiers(),
    {
        Modifiers { alt: false, ctrl: false, shift: false, mac_cmd: false, command: false }
    }
}

/// The modifier state that the seat's keyboard reports.
#[derive(Clone, Copy, Debug, PartialEq, Eq, Structural)]
pub struct SeatModifiers {
    pub ctrl: bool,
    pub alt: bool,
    pub shift: bool,
    pub caps_lock: bool,
    pub logo: bool,
    pub num_lock: bool,
}

/// The GUI modifiers for a seat modifier state on a non-Mac platform:
/// `command` follows `ctrl`, and `mac_cmd` is never set.
pub open spec fn gui_modifiers(m: SeatModifiers) -> Modifiers {
    Modifiers { alt: m.alt, ctrl: m.ctrl, shift: m.shift, mac_cmd: false, command: m.ctrl }
}

/// Converts the seat's modifier state to the GUI toolkit's.
pub fn to_egui_modifiers(modifiers: &SeatModifiers) -> (result: Modifiers)
    ensures
        result == gui_modifiers(*modifiers),
{
    Modifiers {
        alt: modifiers.alt,
        ctrl: modifiers.ctrl,
        shift: modifiers.shift,
        mac_cmd: false,
        command: modifiers.ctrl,
    }
}

/// What happened in one pointer event, with the fields the panel reads.
#[derive(Clone, Copy, Debug, PartialEq, Eq, Structural)]
pub enum PointerEventKind {
    /// The pointer entered the surface.
    Enter,
    /// The pointer left the surface.
    Leave,
    /// The pointer moved over the surface.
    Motion,
    /// A button, given by its Linux input event code, was pressed.
    Press { button: u32 },
    /// A button, given by its Linux input event code, was released.
    Release { button: u32 },
    /// The wheel turned by the given number of discrete steps on each axis.
    Axis { horizontal_discrete: i32, vertical_discrete: i32 },
}

/// A pointer event: the surface it happened on (by its protocol object id),
/// the pointer position in surface coordinates, and what happened.
///
/// The position type is left to the caller: the panel only stores positions
/// and hands them on.
#[derive(Clone, Copy, Debug, PartialEq)]
pub struct PointerEvent<P> {
    pub surface: u32,
    pub position: P,
    pub kind: PointerEventKind,
}

/// A key press: the keysym it produced and the text it entered, if any.
#[derive(Clone, Debug, PartialEq)]
pub struct KeyEvent {
    pub keysym: u32,
    pub utf8: Option<String>,
}

/// One input event for the GUI toolkit.
#[derive(Clone, Debug, PartialEq)]
pub enum InputEvent<P> {
    /// The pointer is now at the given position.
    PointerMoved(P),
    /// The pointer left the surface.
    PointerGone,
    /// A button was pressed or released at the given position.
    PointerButton { pos: P, button: PointerButton, pressed: bool, modifiers: Modifiers },
    /// The wheel scrolled by the given number of lines on each axis.
    MouseWheel { delta_x: i32, delta_y: i32, modifiers: Modifiers },
    /// Text was entered.
    Text(String),
    /// A key was pressed.
    Key { key: Key, pressed: bool, repeat: bool, modifiers: Modifiers },
}

/// A seat capability that the compositor announces.
#[derive(Clone, Copy, Debug, PartialEq, Eq, Structural)]
pub enum Capability {
    Keyboard,
    Pointer,
    Touch,
}

/// An input device that the panel asks the seat for.
#[derive(Clone, Copy, Debug, PartialEq, Eq, Structural)]
pub enum DeviceRequest {
    Pointer,
    Keyboard,
}

/// Exactly the codes of the left, right and middle buttons have a GUI name:
/// left is primary, right is secondary, middle is middle.
pub proof fn lemma_button_codes(code: u32)
    ensures
        button_of_code(code) == Some(PointerButton::Primary) <==> code == 0x110,
        button_of_code(code) == Some(PointerButton::Secondary) <==> code == 0x111,
        button_of_code(code) == Some(PointerButton::Middle) <==> code == 0x112,
        button_of_code(code) is None <==> !(0x110 <= code <= 0x112),
{
}

/// Each forwarded GUI key comes from exactly its own X11 keysyms (Enter from
/// `Return` and `KP_Enter`, every other key from one keysym), and every other
/// keysym is not forwarded.
pub proof fn lemma_keysym_preimages(keysym: u32)
    ensures
        key_of_keysym(keysym) == Some(Key::Enter) <==> (keysym == 0xff0d || keysym == 0xff8d),
        key_of_keysym(keysym) == Some(Key::Tab) <==> keysym == 0xff09,
        key_of_keysym(keysym) == Some(Key::Backspace) <==> keysym == 0xff08,
        key_of_keysym(keysym) == Some(Key::Escape) <==> keysym == 0xff1b,
        key_of_keysym(keysym) == Some(Key::Space) <==> keysym == 0x20,
        key_of_keysym(keysym) == Some(Key::ArrowLeft) <==> keysym == 0xff51,
        key_of_keysym(keysym) == Some(Key::ArrowRight) <==> keysym == 0xff53,
        key_of_keysym(keysym) == Some(Key::ArrowUp) <==> keysym == 0xff52,
        key_of_keysym(keysym) == Some(Key::ArrowDown) <==> keysym == 0xff54,
        key_of_keysym(keysym) == Some(Key::Home) <==> keysym == 0xff50,
        key_of_keysym(keysym) == Some(Key::End) <==> keysym == 0xff57,
        key_of_keysym(keysym) == Some(Key::Delete) <==> keysym == 0xffff,
        key_of_keysym(keysym) == Some(Key::A) <==> keysym == 0x61,
        key_of_keysym(keysym) == Some(Key::C) <==> keysym == 0x63,
        key_of_keysym(keysym) == Some(Key::V) <==> keysym == 0x76,
        key_of_keysym(keysym) == Some(Key::X) <==> keysym == 0x78,
        key_of_keysym(keysym) == Some(Key::Z) <==> keysym == 0x7a,
        key_of_keysym(keysym) is None <==> !(keysym == 0xff0d || keysym == 0xff8d
            || keysym == 0xff09 || keysym == 0xff08 || keysym == 0xff1b || keysym == 0x20
            || keysym == 0xff51 || keysym == 0xff53 || keysym == 0xff52 || keysym == 0xff54
            || keysym == 0xff50 || keysym == 0xff57 || keysym == 0xffff || keysym == 0x61
            || keysym == 0x63 || keysym == 0x76 || keysym == 0x78 || keysym == 0x7a),
{
}

/// Each GUI modifier follows its own seat modifier: alt follows alt, shift
/// follows shift, control and command both follow control, the Mac command
/// key is never held, and caps lock, logo and num lock change nothing.
pub proof fn lemma_gui_modifiers_follow_seat(m: SeatModifiers, other: SeatModifiers)
    ensures
        gui_modifiers(m).alt == m.alt,
        gui_modifiers(m).ctrl == m.ctrl,
        gui_modifiers(m).shift == m.shift,
        gui_modifiers(m).command == m.ctrl,
        !gui_modifiers(m).mac_cmd,
        (other.alt == m.alt && other.ctrl == m.ctrl && other.shift == m.shift) ==> gui_modifiers(
            other,
        ) == gui_modifiers(m),
{
}

/// With no modifier held, no GUI modifier is set.
pub proof fn lemma_no_modifiers_hold_nothing()
    ensures
        !no_modifiers().alt,
        !no_modifiers().ctrl,
        !no_modifiers().shift,
        !no_modifiers().mac_cmd,
        !no_modifiers().command,
{
}

} // verus!
