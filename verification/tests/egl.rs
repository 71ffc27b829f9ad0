use khronos_egl as egl;
use layer_panel::egl::{config_attributes, context_attributes};

#[test]
fn config_attributes_ask_for_rgba8_es2_windows() {
    assert_eq!(
        config_attributes(),
        vec![
            egl::RED_SIZE,
            8,
            egl::GREEN_SIZE,
            8,
            egl::BLUE_SIZE,
            8,
            egl::ALPHA_SIZE,
            8,
            egl::RENDERABLE_TYPE,
            egl::OPENGL_ES2_BIT,
            egl::SURFACE_TYPE,
            egl::WINDOW_BIT,
            egl::NONE,
        ]
    );
}

#[test]
fn context_attributes_ask_for_es2() {
    assert_eq!(context_attributes(), vec![egl::CONTEXT_CLIENT_VERSION, 2, egl::NONE]);
}

#[test]
fn attribute_lists_end_with_none() {
    for list in [config_attributes(), context_attributes()] {
        assert_eq!(list.len() % 2, 1);
        assert_eq!(*list.last().unwrap(), egl::NONE);
        assert!(list.iter().step_by(2).take(list.len() / 2).all(|&a| a != egl::NONE));
    }
}
