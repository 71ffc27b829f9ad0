use layer_panel::app::builder::AppBuilder;
use layer_panel::app::{App, ConfigurePlan};
use layer_panel::input::{Capability, DeviceRequest, PointerEvent, PointerEventKind};
use layer_panel::widget::top_bar::TopBar;
use layer_panel::widget::Widget;

type Bar = TopBar<(i32, i32), u32, String>;

fn app_with(surfaces: &[u32]) -> App<&'static str, Bar> {
    let mut builder = AppBuilder::new("handles");
    for &s in surfaces {
        builder = builder.add_widget(TopBar::new(s, (0, 0)));
    }
    builder.build()
}

#[test]
fn new_builder_is_empty() {
    let builder: AppBuilder<u8, Bar> = AppBuilder::new(4);
    assert_eq!(builder.handles, 4);
    assert!(builder.widgets.is_empty());
    assert!(!builder.should_exit);
}

#[test]
fn build_keeps_widgets_in_order() {
    let app = app_with(&[11, 12, 13]);
    assert_eq!(app.handles, "handles");
    assert!(!app.should_exit);
    let ids: Vec<u32> = app.widgets.iter().map(|w| w.surface_id()).collect();
    assert_eq!(ids, vec![11, 12, 13]);
}

#[test]
fn find_widget_gives_first_match() {
    let app = app_with(&[4, 5, 4]);
    assert_eq!(App::<&str, Bar>::find_widget(&app.widgets, 4), Some(0));
    assert_eq!(App::<&str, Bar>::find_widget(&app.widgets, 5), Some(1));
    assert_eq!(App::<&str, Bar>::find_widget(&app.widgets, 6), None);
}

#[test]
fn find_widget_in_empty_list() {
    let widgets: Vec<Bar> = Vec::new();
    assert_eq!(App::<(), Bar>::find_widget(&widgets, 0), None);
}

#[test]
fn closing_stops_the_app() {
    let mut app = app_with(&[1]);
    app.closed();
    assert!(app.should_exit);
    assert_eq!(app.widgets.len(), 1);
}

#[test]
fn configure_unknown_surface_does_nothing() {
    let mut app = app_with(&[1]);
    assert_eq!(app.configure(2, (100, 40), false), None);
    assert_eq!(app.widgets[0].size(), (0, 0));
}

#[test]
fn first_configure_creates_surfaces_and_gl() {
    let mut app = app_with(&[1, 2]);
    let plan = app.configure(2, (1920, 40), false);
    assert_eq!(
        plan,
        Some(ConfigurePlan {
            widget: 1,
            width: 1920,
            height: 40,
            create_surfaces: true,
            load_gl: true
        })
    );
    assert_eq!(app.widgets[1].size(), (1920, 40));
    assert_eq!(app.widgets[0].size(), (0, 0));
}

#[test]
fn configure_with_gl_loaded_creates_only_surfaces() {
    let mut app = app_with(&[1]);
    let plan = app.configure(1, (800, 30), true).expect("widget on surface 1");
    assert!(plan.create_surfaces);
    assert!(!plan.load_gl);
}

#[test]
fn surfaces_are_created_once() {
    let mut app = app_with(&[1]);
    let plan = app.configure(1, (800, 30), false).expect("widget on surface 1");
    assert!(plan.create_surfaces);
    app.widgets[plan.widget].set_wl_egl_surface(String::from("window"));
    app.widgets[plan.widget].set_egl_surface(42);
    let again = app.configure(1, (1024, 32), false).expect("widget on surface 1");
    assert_eq!(
        again,
        ConfigurePlan { widget: 0, width: 1024, height: 32, create_surfaces: false, load_gl: false }
    );
    assert_eq!(app.widgets[0].egl_surface(), Some(42));
}

#[test]
fn frame_finds_the_widget_to_draw() {
    let app = app_with(&[3, 9]);
    assert_eq!(app.frame(9), Some(1));
    assert_eq!(app.frame(3), Some(0));
    assert_eq!(app.frame(1), None);
}

#[test]
fn pointer_events_are_routed_to_their_widget() {
    let mut app = app_with(&[3, 9]);
    let enter = PointerEvent { surface: 9, position: (4, 4), kind: PointerEventKind::Enter };
    assert_eq!(app.pointer_event(&enter), Some(1));
    let odd_button =
        PointerEvent { surface: 9, position: (4, 4), kind: PointerEventKind::Press { button: 1 } };
    assert_eq!(app.pointer_event(&odd_button), None);
    let elsewhere = PointerEvent { surface: 5, position: (0, 0), kind: PointerEventKind::Leave };
    assert_eq!(app.pointer_event(&elsewhere), None);
    app.widgets[1].set_size(10, 10);
    app.widgets[1].set_egl_surface(1);
    let frame = app.widgets[1].draw_widget(true).expect("drawable");
    assert_eq!(frame.events.len(), 1);
}

#[test]
fn capabilities_ask_for_devices() {
    let app = app_with(&[]);
    assert_eq!(app.new_capability(Capability::Pointer), Some(DeviceRequest::Pointer));
    assert_eq!(app.new_capability(Capability::Keyboard), Some(DeviceRequest::Keyboard));
    assert_eq!(app.new_capability(Capability::Touch), None);
}
