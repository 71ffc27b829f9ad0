//! The panel application: its widgets and the decisions its compositor event
//! handlers make.
//!
//! The handlers themselves talk to the compositor and to EGL; here each of
//! them is a step from the application's state and the event to the next
//! state and to what the handler must do next.

pub mod builder;

use vstd::prelude::*;

use crate::input::{Capability, DeviceRequest, PointerEvent};
use crate::widget::Widget;

verus! {

/// The running panel: the compositor handles it keeps alive, its widgets, and
/// whether it should stop.
///
/// `H` holds the compositor and EGL state that the event loop owns; the
/// decisions here never read it.
pub struct App<H, W> {
    pub handles: H,
    pub widgets: Vec<W>,
    pub should_exit: bool,
}

/// `i` is the first widget in `widgets` shown on `surface`.
pub open spec fn is_first_on<W: Widget>(widgets: Seq<W>, surface: u32, i: int) -> bool {
    &&& 0 <= i < widgets.len()
    &&& widgets[i].surface_spec() == surface
    &&& forall|j: int| 0 <= j < i ==> widgets[j].surface_spec() != surface
}

/// The first widget in `widgets` shown on `surface`, if any.
pub open spec fn first_on<W: Widget>(widgets: Seq<W>, surface: u32) -> Option<int> {
    if exists|i: int| is_first_on(widgets, surface, i) {
        Some(choose|i: int| is_first_on(widgets, surface, i))
    } else {
        None
    }
}

/// At most one index is the first widget on a surface.
pub proof fn lemma_first_on_unique<W: Widget>(widgets: Seq<W>, surface: u32, i: int, k: int)
    requires
        is_first_on(widgets, surface, i),
        is_first_on(widgets, surface, k),
    ensures
        i == k,
{
    if i < k {
        assert(widgets[i].surface_spec() != surface);
    } else if k < i {
        assert(widgets[k].surface_spec() != surface);
    }
}

/// What the configure handler must do for the widget it configured.
#[derive(Clone, Copy, Debug, PartialEq, Eq, Structural)]
pub struct ConfigurePlan {
    /// The index of the configured widget.
    pub widget: usize,
    /// The size the widget now has, and the size of any surface to create.
    pub width: u32,
    pub height: u32,
    /// The widget has no native window yet: create it and its EGL surface,
    /// attach both to the widget, and make the EGL surface current.
    pub create_surfaces: bool,
    /// No GL context exists yet: load one once the EGL surface is current.
    pub load_gl: bool,
}

/// `after` are the widgets `before` once the layer surface `surface` was
/// configured to `new_size`, and `plan` is what the configure handler must
/// then do; `gl_loaded` says whether a GL context already exists.
pub open spec fn configured<W: Widget>(
    before: Seq<W>,
    surface: u32,
    new_size: (u32, u32),
    gl_loaded: bool,
    plan: Option<ConfigurePlan>,
    after: Seq<W>,
) -> bool {
    match first_on(before, surface) {
        None => {
            &&& plan is None
            &&& after == before
        },
        Some(i) => {
            &&& plan matches Some(p) && {
                &&& p.widget as int == i
                &&& p.width == new_size.0
                &&& p.height == new_size.1
                &&& p.create_surfaces == before[i].wl_egl_surface_spec() is None
                &&& p.load_gl == (p.create_surfaces && !gl_loaded)
            }
            &&& before[i].resized(new_size.0, new_size.1, after[i])
            &&& after[i].size_spec() == new_size
            &&& after[i].surface_spec() == before[i].surface_spec()
            &&& after[i].egl_surface_spec() == before[i].egl_surface_spec()
            &&& after[i].wl_egl_surface_spec() == before[i].wl_egl_surface_spec()
            &&& after == before.update(i, after[i])
        },
    }
}

/// Every widget has both its native window and its EGL surface or neither,
/// and a widget with surfaces exists only once a GL context is loaded.
pub open spec fn surfaces_paired<W: Widget>(widgets: Seq<W>, gl_loaded: bool) -> bool {
    forall|j: int|
        0 <= j < widgets.len() ==> {
            &&& (#[trigger] widgets[j]).wl_egl_surface_spec() is Some
                <==> widgets[j].egl_surface_spec() is Some
            &&& widgets[j].egl_surface_spec() is Some ==> gl_loaded
        }
}

/// `after` and `gl_after` are the widgets `configured` and the GL state
/// `gl_before` once the program has done what `plan` says: when asked to
/// create surfaces, it attached a native window and then an EGL surface to the
/// planned widget, as `set_wl_egl_surface` and `set_egl_surface` state it, and
/// it loaded a GL context exactly when asked to.
pub open spec fn plan_followed<W: Widget>(
    configured: Seq<W>,
    plan: Option<ConfigurePlan>,
    gl_before: bool,
    after: Seq<W>,
    gl_after: bool,
) -> bool {
    match plan {
        Some(p) if p.create_surfaces => {
            let i = p.widget as int;
            &&& 0 <= i < configured.len()
            &&& after == configured.update(i, after[i])
            &&& after[i].wl_egl_surface_spec() is Some
            &&& after[i].egl_surface_spec() is Some
            &&& after[i].surface_spec() == configured[i].surface_spec()
            &&& after[i].size_spec() == configured[i].size_spec()
            &&& gl_after == (gl_before || p.load_gl)
        },
        _ => {
            &&& after == configured
            &&& gl_after == gl_before
        },
    }
}

/// Configuring a surface and then doing what the plan says keeps every
/// widget's native window and EGL surface attached together, never attaches
/// surfaces before a GL context exists, and loads a GL context at most once:
/// a plan asks for one only while none is loaded, and once loaded it stays.
pub proof fn lemma_configure_keeps_surfaces_paired<W: Widget>(
    before: Seq<W>,
    surface: u32,
    new_size: (u32, u32),
    gl_before: bool,
    plan: Option<ConfigurePlan>,
    configured_widgets: Seq<W>,
    after: Seq<W>,
    gl_after: bool,
)
    requires
        surfaces_paired(before, gl_before),
        configured(before, surface, new_size, gl_before, plan, configured_widgets),
        plan_followed(configured_widgets, plan, gl_before, after, gl_after),
    ensures
        surfaces_paired(after, gl_after),
        plan matches Some(p) && p.load_gl ==> !gl_before,
        gl_before ==> gl_after,
{
    assert forall|j: int| 0 <= j < after.len() implies {
        &&& (#[trigger] after[j]).wl_egl_surface_spec() is Some
            <==> after[j].egl_surface_spec() is Some
        &&& after[j].egl_surface_spec() is Some ==> gl_after
    } by {
        assert(before[j].wl_egl_surface_spec() is Some <==> before[j].egl_surface_spec() is Some);
    }
}

/// The widget found for a surface is a widget shown on it with no widget on
/// it before; none is found only when no widget is shown on it.
pub proof fn lemma_first_on_finds_first<W: Widget>(widgets: Seq<W>, surface: u32)
    ensures
        first_on(widgets, surface) matches Some(i) ==> {
            &&& 0 <= i < widgets.len()
            &&& widgets[i].surface_spec() == surface
            &&& forall|j: int| 0 <= j < i ==> widgets[j].surface_spec() != surface
        },
        first_on(widgets, surface) is None <==> forall|j: int|
            0 <= j < widgets.len() ==> widgets[j].surface_spec() != surface,
{
    if first_on(widgets, surface) is None {
        assert forall|j: int| 0 <= j < widgets.len() implies widgets[j].surface_spec()
            != surface by {
            if widgets[j].surface_spec() == surface {
                lemma_first_on_exists(widgets, surface, j);
            }
        }
    }
}

proof fn lemma_first_on_exists<W: Widget>(widgets: Seq<W>, surface: u32, j: int)
    requires
        0 <= j < widgets.len(),
        widgets[j].surface_spec() == surface,
    ensures
        exists|i: int| is_first_on(widgets, surface, i),
    decreases j,
{
    if exists|k: int| 0 <= k < j && widgets[k].surface_spec() == surface {
        let k = choose|k: int| 0 <= k < j && widgets[k].surface_spec() == surface;
        lemma_first_on_exists(widgets, surface, k);
    } else {
        assert(is_first_on(widgets, surface, j));
    }
}

/// What configuring a surface decides. With no widget on the surface there is
/// no plan and nothing changes. Otherwise the plan names the first widget on
/// it and the new size; it asks to create surfaces exactly when that widget
/// has no native window, and to load GL exactly when it creates surfaces while
/// no GL context exists. That widget then has the new size and keeps its
/// surfaces; every other widget is unchanged.
pub proof fn lemma_configure_decides<W: Widget>(
    before: Seq<W>,
    surface: u32,
    new_size: (u32, u32),
    gl_loaded: bool,
    plan: Option<ConfigurePlan>,
    after: Seq<W>,
)
    requires
        configured(before, surface, new_size, gl_loaded, plan, after),
    ensures
        plan is None <==> forall|j: int|
            0 <= j < before.len() ==> before[j].surface_spec() != surface,
        plan is None ==> after == before,
        plan matches Some(p) ==> {
            let i = p.widget as int;
            &&& 0 <= i < before.len()
            &&& before[i].surface_spec() == surface
            &&& forall|j: int| 0 <= j < i ==> before[j].surface_spec() != surface
            &&& p.width == new_size.0
            &&& p.height == new_size.1
            &&& p.create_surfaces <==> before[i].wl_egl_surface_spec() is None
            &&& p.load_gl <==> (before[i].wl_egl_surface_spec() is None && !gl_loaded)
            &&& after.len() == before.len()
            &&& after[i].size_spec() == new_size
            &&& after[i].surface_spec() == surface
            &&& after[i].egl_surface_spec() == before[i].egl_surface_spec()
            &&& after[i].wl_egl_surface_spec() == before[i].wl_egl_surface_spec()
            &&& forall|j: int| 0 <= j < before.len() && j != i ==> after[j] == before[j]
        },
{
    lemma_first_on_finds_first(before, surface);
}

impl<H, W: Widget> App<H, W> {
    /// The index of the first widget shown on the surface with the given
    /// protocol id.
    pub fn find_widget(widgets: &Vec<W>, layer_surface: u32) -> (found: Option<usize>)
        ensures
            match first_on(widgets@, layer_surface) {
                Some(i) => found matches Some(f) && f as int == i,
                None => found is None,
            },
    {
        let mut i: usize = 0;
        while i < widgets.len()
            invariant
                i <= widgets@.len(),
                forall|j: int| 0 <= j < i ==> widgets@[j].surface_spec() != layer_surface,
            decreases widgets@.len() - i,
        {
            if widgets[i].surface_id() == layer_surface {
                proof {
                    assert(is_first_on(widgets@, layer_surface, i as int));
                    let k = choose|k: int| is_first_on(widgets@, layer_surface, k);
                    lemma_first_on_unique(widgets@, layer_surface, i as int, k);
                }
                return Some(i);
            }
            i = i + 1;
        }
        None
    }

    /// The layer surface was closed: the panel stops after this event.
    pub fn closed(&mut self)
        ensures
            final(self).should_exit,
            final(self).widgets@ == old(self).widgets@,
            final(self).handles == old(self).handles,
    {
        self.should_exit = true;
    }

    /// The compositor configured a layer surface to `new_size`.
    ///
    /// The widget shown on it takes the new size; the returned plan says
    /// which widget it is, whether its surfaces must still be created, and
    /// whether a GL context must be loaded. The widget is then drawn. With no
    /// widget on that surface nothing changes and there is no plan.
    pub fn configure(&mut self, layer_surface: u32, new_size: (u32, u32), gl_loaded: bool) -> (plan:
        Option<ConfigurePlan>)
        ensures
            final(self).handles == old(self).handles,
            final(self).should_exit == old(self).should_exit,
            configured(
                old(self).widgets@,
                layer_surface,
                new_size,
                gl_loaded,
                plan,
                final(self).widgets@,
            ),
    {
        match Self::find_widget(&self.widgets, layer_surface) {
            Some(i) => {
                let ghost before = self.widgets@;
                self.widgets[i].set_size(new_size.0, new_size.1);
                let (width, height) = self.widgets[i].size();
                let create_surfaces = self.widgets[i].wl_egl_surface().is_none();
                let load_gl = create_surfaces && !gl_loaded;
                assert(self.widgets@ =~= before.update(i as int, self.widgets@[i as int]));
                Some(ConfigurePlan { widget: i, width, height, create_surfaces, load_gl })
            },
            None => None,
        }
    }

    /// A frame callback arrived for a layer surface: the widget to draw.
    pub fn frame(&self, layer_surface: u32) -> (to_draw: Option<usize>)
        ensures
            match first_on(self.widgets@, layer_surface) {
                Some(i) => to_draw matches Some(f) && f as int == i,
                None => to_draw is None,
            },
    {
        Self::find_widget(&self.widgets, layer_surface)
    }

    /// One pointer event of a pointer frame: the widget on the event's
    /// surface takes it; the result is that widget if it must be drawn again.
    pub fn pointer_event(&mut self, event: &PointerEvent<W::Position>) -> (to_draw: Option<usize>)
        requires
            W::accepts_pointer_event(*event),
        ensures
            final(self).handles == old(self).handles,
            final(self).should_exit == old(self).should_exit,
            match first_on(old(self).widgets@, event.surface) {
                None => {
                    &&& to_draw is None
                    &&& final(self).widgets@ == old(self).widgets@
                },
                Some(i) => {
                    &&& old(self).widgets@[i].pointer_handled(
                        *event,
                        final(self).widgets@[i],
                        to_draw is Some,
                    )
                    &&& to_draw matches Some(f) ==> f as int == i
                    &&& final(self).widgets@[i].size_spec() == old(self).widgets@[i].size_spec()
                    &&& final(self).widgets@[i].surface_spec() == old(
                        self,
                    ).widgets@[i].surface_spec()
                    &&& final(self).widgets@[i].egl_surface_spec() == old(
                        self,
                    ).widgets@[i].egl_surface_spec()
                    &&& final(self).widgets@[i].wl_egl_surface_spec() == old(
                        self,
                    ).widgets@[i].wl_egl_surface_spec()
                    &&& final(self).widgets@ == old(self).widgets@.update(
                        i,
                        final(self).widgets@[i],
                    )
                },
            },
    {
        match Self::find_widget(&self.widgets, event.surface) {
            Some(i) => {
                let ghost before = self.widgets@;
                let redraw = self.widgets[i].handle_pointer_event(event);
                assert(self.widgets@ =~= before.update(i as int, self.widgets@[i as int]));
                if redraw {
                    Some(i)
                } else {
                    None
                }
            },
            None => None,
        }
    }

    /// The seat gained a capability: the input device to ask the seat for.
    pub fn new_capability(&self, capability: Capability) -> (request: Option<DeviceRequest>)
        ensures
            request == match capability {
                Capability::Pointer => Some(DeviceRequest::Pointer),
                Capability::Keyboard => Some(DeviceRequest::Keyboard),
                Capability::Touch => None::<DeviceRequest>,
            },
    {
        match capability {
            Capability::Pointer => Some(DeviceRequest::Pointer),
            Capability::Keyboard => Some(DeviceRequest::Keyboard),
            Capability::Touch => None,
        }
    }
}

} // verus!
