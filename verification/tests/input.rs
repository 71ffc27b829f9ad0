use layer_panel::input::{
    keysym_to_egui_key, to_egui_modifiers, wayland_to_egui_button, Key, Modifiers,
    PointerButton, SeatModifiers, KEYSYM_A, KEYSYM_BACKSPACE, KEYSYM_C, KEYSYM_DELETE,
    KEYSYM_DOWN, KEYSYM_END, KEYSYM_ESCAPE, KEYSYM_HOME, KEYSYM_KP_ENTER, KEYSYM_LEFT,
    KEYSYM_RETURN, KEYSYM_RIGHT, KEYSYM_SPACE, KEYSYM_TAB, KEYSYM_UP, KEYSYM_V, KEYSYM_X,
    KEYSYM_Z,
};
use xkeysym::Keysym;

#[test]
fn linux_button_codes_map_to_gui_buttons() {
    assert_eq!(wayland_to_egui_button(0x110), Some(PointerButton::Primary));
    assert_eq!(wayland_to_egui_button(0x111), Some(PointerButton::Secondary));
    assert_eq!(wayland_to_egui_button(0x112), Some(PointerButton::Middle));
}

#[test]
fn other_button_codes_have_no_gui_button() {
    assert_eq!(wayland_to_egui_button(0x113), None);
    assert_eq!(wayland_to_egui_button(0x10f), None);
    assert_eq!(wayland_to_egui_button(0), None);
    assert_eq!(wayland_to_egui_button(u32::MAX), None);
}

#[test]
fn forwarded_keysyms_map_to_gui_keys() {
    let cases = [
        (Keysym::Return, Key::Enter),
        (Keysym::KP_Enter, Key::Enter),
        (Keysym::Tab, Key::Tab),
        (Keysym::BackSpace, Key::Backspace),
        (Keysym::Escape, Key::Escape),
        (Keysym::space, Key::Space),
        (Keysym::Left, Key::ArrowLeft),
        (Keysym::Right, Key::ArrowRight),
        (Keysym::Up, Key::ArrowUp),
        (Keysym::Down, Key::ArrowDown),
        (Keysym::Home, Key::Home),
        (Keysym::End, Key::End),
        (Keysym::Delete, Key::Delete),
        (Keysym::a, Key::A),
        (Keysym::c, Key::C),
        (Keysym::v, Key::V),
        (Keysym::x, Key::X),
        (Keysym::z, Key::Z),
    ];
    for (keysym, key) in cases {
        assert_eq!(keysym_to_egui_key(keysym.raw()), Some(key));
    }
}

#[test]
fn other_keysyms_are_not_forwarded() {
    for keysym in [Keysym::b, Keysym::A, Keysym::F1, Keysym::Shift_L, Keysym::KP_Tab] {
        assert_eq!(keysym_to_egui_key(keysym.raw()), None);
    }
    assert_eq!(keysym_to_egui_key(0), None);
}

#[test]
fn keysym_constants_are_the_x11_values() {
    assert_eq!(KEYSYM_RETURN, Keysym::Return.raw());
    assert_eq!(KEYSYM_KP_ENTER, Keysym::KP_Enter.raw());
    assert_eq!(KEYSYM_TAB, Keysym::Tab.raw());
    assert_eq!(KEYSYM_BACKSPACE, Keysym::BackSpace.raw());
    assert_eq!(KEYSYM_ESCAPE, Keysym::Escape.raw());
    assert_eq!(KEYSYM_SPACE, Keysym::space.raw());
    assert_eq!(KEYSYM_LEFT, Keysym::Left.raw());
    assert_eq!(KEYSYM_RIGHT, Keysym::Right.raw());
    assert_eq!(KEYSYM_UP, Keysym::Up.raw());
    assert_eq!(KEYSYM_DOWN, Keysym::Down.raw());
    assert_eq!(KEYSYM_HOME, Keysym::Home.raw());
    assert_eq!(KEYSYM_END, Keysym::End.raw());
    assert_eq!(KEYSYM_DELETE, Keysym::Delete.raw());
    assert_eq!(KEYSYM_A, Keysym::a.raw());
    assert_eq!(KEYSYM_C, Keysym::c.raw());
    assert_eq!(KEYSYM_V, Keysym::v.raw());
    assert_eq!(KEYSYM_X, Keysym::x.raw());
    assert_eq!(KEYSYM_Z, Keysym::z.raw());
}

#[test]
fn control_also_sets_command() {
    let seat = SeatModifiers {
        ctrl: true,
        alt: false,
        shift: true,
        caps_lock: true,
        logo: true,
        num_lock: true,
    };
    assert_eq!(
        to_egui_modifiers(&seat),
        Modifiers { alt: false, ctrl: true, shift: true, mac_cmd: false, command: true }
    );
}

#[test]
fn alt_alone_sets_only_alt() {
    let seat = SeatModifiers {
        ctrl: false,
        alt: true,
        shift: false,
        caps_lock: false,
        logo: false,
        num_lock: false,
    };
    assert_eq!(
        to_egui_modifiers(&seat),
        Modifiers { alt: true, ctrl: false, shift: false, mac_cmd: false, command: false }
    );
}

#[test]
fn default_modifiers_hold_nothing() {
    assert_eq!(
        Modifiers::default(),
        Modifiers { alt: false, ctrl: false, shift: false, mac_cmd: false, command: false }
    );
}
