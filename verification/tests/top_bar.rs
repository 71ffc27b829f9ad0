use layer_panel::input::{
    InputEvent, Key, KeyEvent, Modifiers, PointerButton, PointerEvent, PointerEventKind,
    SeatModifiers,
};
use layer_panel::widget::top_bar::TopBar;
use layer_panel::widget::Widget;

type Bar = TopBar<(i32, i32), u32, String>;

const SURFACE: u32 = 7;

fn bar() -> Bar {
    TopBar::new(SURFACE, (0, 0))
}

fn pointer(kind: PointerEventKind, x: i32, y: i32) -> PointerEvent<(i32, i32)> {
    PointerEvent { surface: SURFACE, position: (x, y), kind }
}

fn drawable_bar() -> Bar {
    let mut b = bar();
    b.set_size(1920, 40);
    b.set_egl_surface(3);
    b.set_wl_egl_surface(String::from("window"));
    b
}

fn no_mods() -> Modifiers {
    Modifiers::default()
}

fn frame_events(b: &mut Bar) -> Vec<InputEvent<(i32, i32)>> {
    b.draw_widget(true).expect("a configured bar with a surface draws").events
}

#[test]
fn new_bar_is_unconfigured() {
    let b = bar();
    assert_eq!(b.surface_id(), SURFACE);
    assert_eq!(b.size(), (0, 0));
    assert_eq!(b.egl_surface(), None);
    assert!(b.wl_egl_surface().is_none());
}

#[test]
fn set_size_is_read_back() {
    let mut b = bar();
    b.set_size(1280, 40);
    assert_eq!(b.size(), (1280, 40));
}

#[test]
fn surfaces_are_read_back() {
    let mut b = bar();
    b.set_egl_surface(9);
    b.set_wl_egl_surface(String::from("native"));
    assert_eq!(b.egl_surface(), Some(9));
    assert_eq!(b.wl_egl_surface(), Some(&String::from("native")));
}

#[test]
fn entering_moves_the_pointer() {
    let mut b = drawable_bar();
    assert!(b.handle_pointer_event(&pointer(PointerEventKind::Enter, 10, 20)));
    assert_eq!(frame_events(&mut b), vec![InputEvent::PointerMoved((10, 20))]);
}

#[test]
fn press_is_reported_at_last_motion() {
    let mut b = drawable_bar();
    assert!(b.handle_pointer_event(&pointer(PointerEventKind::Motion, 5, 6)));
    assert!(b.handle_pointer_event(&pointer(PointerEventKind::Press { button: 0x110 }, 99, 99)));
    assert!(b.handle_pointer_event(&pointer(PointerEventKind::Release { button: 0x111 }, 1, 1)));
    assert_eq!(
        frame_events(&mut b),
        vec![
            InputEvent::PointerMoved((5, 6)),
            InputEvent::PointerButton {
                pos: (5, 6),
                button: PointerButton::Primary,
                pressed: true,
                modifiers: no_mods(),
            },
            InputEvent::PointerButton {
                pos: (5, 6),
                button: PointerButton::Secondary,
                pressed: false,
                modifiers: no_mods(),
            },
        ]
    );
}

#[test]
fn leaving_keeps_the_last_position() {
    let mut b = drawable_bar();
    b.handle_pointer_event(&pointer(PointerEventKind::Enter, 1, 2));
    assert!(b.handle_pointer_event(&pointer(PointerEventKind::Leave, 50, 50)));
    b.handle_pointer_event(&pointer(PointerEventKind::Press { button: 0x112 }, 0, 0));
    assert_eq!(
        frame_events(&mut b),
        vec![
            InputEvent::PointerMoved((1, 2)),
            InputEvent::PointerGone,
            InputEvent::PointerButton {
                pos: (1, 2),
                button: PointerButton::Middle,
                pressed: true,
                modifiers: no_mods(),
            },
        ]
    );
}

#[test]
fn unknown_button_queues_nothing() {
    let mut b = drawable_bar();
    assert!(!b.handle_pointer_event(&pointer(PointerEventKind::Press { button: 0x113 }, 0, 0)));
    assert!(!b.handle_pointer_event(&pointer(PointerEventKind::Release { button: 0x114 }, 0, 0)));
    assert_eq!(frame_events(&mut b), vec![]);
}

#[test]
fn wheel_steps_are_reversed() {
    let mut b = drawable_bar();
    let axis = PointerEventKind::Axis { horizontal_discrete: 2, vertical_discrete: -3 };
    assert!(b.handle_pointer_event(&pointer(axis, 0, 0)));
    assert_eq!(
        frame_events(&mut b),
        vec![InputEvent::MouseWheel { delta_x: -2, delta_y: 3, modifiers: no_mods() }]
    );
}

#[test]
fn wheel_extremes_are_negated_exactly() {
    let mut b = drawable_bar();
    let axis = PointerEventKind::Axis { horizontal_discrete: i32::MAX, vertical_discrete: 0 };
    b.handle_pointer_event(&pointer(axis, 0, 0));
    assert_eq!(
        frame_events(&mut b),
        vec![InputEvent::MouseWheel { delta_x: -i32::MAX, delta_y: 0, modifiers: no_mods() }]
    );
}

#[test]
fn key_with_text_gives_text_then_key() {
    let mut b = drawable_bar();
    b.handle_keyboard_event(&KeyEvent { keysym: 0x61, utf8: Some(String::from("a")) });
    assert_eq!(
        frame_events(&mut b),
        vec![
            InputEvent::Text(String::from("a")),
            InputEvent::Key { key: Key::A, pressed: true, repeat: false, modifiers: no_mods() },
        ]
    );
}

#[test]
fn key_without_text_or_name_gives_nothing() {
    let mut b = drawable_bar();
    b.handle_keyboard_event(&KeyEvent { keysym: 0xffbe, utf8: None });
    assert_eq!(frame_events(&mut b), vec![]);
}

#[test]
fn text_of_unnamed_key_is_still_entered() {
    let mut b = drawable_bar();
    b.handle_keyboard_event(&KeyEvent { keysym: 0x62, utf8: Some(String::from("b")) });
    assert_eq!(frame_events(&mut b), vec![InputEvent::Text(String::from("b"))]);
}

#[test]
fn modifiers_follow_the_keyboard() {
    let mut b = drawable_bar();
    let seat = SeatModifiers {
        ctrl: true,
        alt: false,
        shift: false,
        caps_lock: false,
        logo: false,
        num_lock: false,
    };
    b.handle_keyboard_modifiers(&seat);
    b.handle_keyboard_event(&KeyEvent { keysym: 0xff0d, utf8: None });
    b.handle_pointer_event(&pointer(PointerEventKind::Press { button: 0x110 }, 0, 0));
    let ctrl = Modifiers { alt: false, ctrl: true, shift: false, mac_cmd: false, command: true };
    let frame = b.draw_widget(true).expect("drawable");
    assert_eq!(frame.modifiers, ctrl);
    assert_eq!(
        frame.events,
        vec![
            InputEvent::Key { key: Key::Enter, pressed: true, repeat: false, modifiers: ctrl },
            InputEvent::PointerButton {
                pos: (0, 0),
                button: PointerButton::Primary,
                pressed: true,
                modifiers: ctrl,
            },
        ]
    );
}

#[test]
fn no_frame_without_size() {
    let mut b = bar();
    b.set_egl_surface(1);
    b.handle_pointer_event(&pointer(PointerEventKind::Enter, 3, 4));
    assert!(b.draw_widget(true).is_none());
    b.set_size(100, 0);
    assert!(b.draw_widget(true).is_none());
    b.set_size(0, 100);
    assert!(b.draw_widget(true).is_none());
    b.set_size(100, 100);
    assert_eq!(frame_events(&mut b), vec![InputEvent::PointerMoved((3, 4))]);
}

#[test]
fn no_frame_without_surface_or_gl() {
    let mut b = bar();
    b.set_size(100, 30);
    b.handle_pointer_event(&pointer(PointerEventKind::Leave, 0, 0));
    assert!(b.draw_widget(true).is_none());
    b.set_egl_surface(5);
    assert!(b.draw_widget(false).is_none());
    let frame = b.draw_widget(true).expect("drawable");
    assert_eq!(frame.surface, 5);
    assert_eq!((frame.width, frame.height), (100, 30));
    assert_eq!(frame.events, vec![InputEvent::PointerGone]);
}

#[test]
fn second_frame_gets_no_input() {
    let mut b = drawable_bar();
    b.handle_pointer_event(&pointer(PointerEventKind::Motion, 8, 9));
    assert_eq!(frame_events(&mut b).len(), 1);
    assert_eq!(frame_events(&mut b), vec![]);
}

#[test]
fn resizing_keeps_queued_input_and_surfaces() {
    let mut b = drawable_bar();
    b.handle_pointer_event(&pointer(PointerEventKind::Motion, 8, 9));
    b.set_size(640, 24);
    assert_eq!(b.egl_surface(), Some(3));
    assert_eq!(b.wl_egl_surface(), Some(&String::from("window")));
    let frame = b.draw_widget(true).expect("drawable");
    assert_eq!((frame.width, frame.height), (640, 24));
    assert_eq!(frame.events, vec![InputEvent::PointerMoved((8, 9))]);
}

#[test]
fn last_set_wins_across_other_calls() {
    let mut b = bar();
    b.set_size(100, 10);
    b.set_egl_surface(1);
    b.set_wl_egl_surface(String::from("first"));
    b.set_size(200, 20);
    b.set_egl_surface(2);
    b.handle_pointer_event(&pointer(PointerEventKind::Motion, 1, 1));
    b.set_wl_egl_surface(String::from("second"));
    b.handle_keyboard_event(&KeyEvent { keysym: 0x61, utf8: None });
    let _ = b.draw_widget(true);
    assert_eq!(b.size(), (200, 20));
    assert_eq!(b.egl_surface(), Some(2));
    assert_eq!(b.wl_egl_surface(), Some(&String::from("second")));
}
