//! The panel's top bar: it turns seat input into GUI input events, queues
//! them until the next frame, and decides when a frame can be drawn.

use vstd::prelude::*;

use crate::input::{
    button_of_code, gui_modifiers, key_of_keysym, keysym_to_egui_key, no_modifiers,
    to_egui_modifiers, wayland_to_egui_button, InputEvent, KeyEvent, Modifiers, PointerEvent,
    PointerEventKind, SeatModifiers,
};
use crate::widget::{FrameInput, Widget};

verus! {

/// The abstract state of a top bar.
pub struct TopBarView<P, E, S> {
    /// Protocol id of the layer surface the bar is shown on.
    pub surface_id: u32,
    pub width: u32,
    pub height: u32,
    pub egl_surface: Option<E>,
    pub wl_egl_surface: Option<S>,
    /// Where the pointer was last seen on the bar.
    pub pointer_pos: P,
    /// The modifiers attached to the pointer and key events the bar queues.
    pub modifiers: Modifiers,
    /// Input events queued for the next frame, oldest first.
    pub pending: Seq<InputEvent<P>>,
    /// The modifiers reported to the GUI with the next frame.
    pub input_modifiers: Modifiers,
}

/// A bar across the top of the output.
pub struct TopBar<P, E, S> {
    surface_id: u32,
    width: u32,
    height: u32,
    egl_surface: Option<E>,
    wl_egl_surface: Option<S>,
    pointer_pos: P,
    modifiers: Modifiers,
    pending: Vec<InputEvent<P>>,
    input_modifiers: Modifiers,
}

impl<P, E, S> View for TopBar<P, E, S> {
    type V = TopBarView<P, E, S>;

    closed spec fn view(&self) -> TopBarView<P, E, S> {
        TopBarView {
            surface_id: self.surface_id,
            width: self.width,
            height: self.height,
            egl_surface: self.egl_surface,
            wl_egl_surface: self.wl_egl_surface,
            pointer_pos: self.pointer_pos,
            modifiers: self.modifiers,
            pending: self.pending@,
            input_modifiers: self.input_modifiers,
        }
    }
}

/// The sequence holding the value of `o`, or the empty sequence.
pub open spec fn seq_of_option<T>(o: Option<T>) -> Seq<T> {
    match o {
        Some(t) => seq![t],
        None => Seq::empty(),
    }
}

/// The pointer event can be translated without overflow: a wheel step count
/// is never the most negative `i32`, which has no negation.
pub open spec fn pointer_event_in_range<P>(event: PointerEvent<P>) -> bool {
    match event.kind {
        PointerEventKind::Axis { horizontal_discrete, vertical_discrete } => {
            horizontal_discrete > i32::MIN && vertical_discrete > i32::MIN
        },
        _ => true,
    }
}

/// The pointer position after `event` and the GUI event it produces, given the
/// last known position `last` and the current modifiers `mods`.
///
/// Entering and motion move the pointer; buttons and the wheel are reported at
/// the last known position; a button with no GUI name produces nothing; wheel
/// steps are reported as lines, in the opposite direction.
pub open spec fn pointer_translation<P>(last: P, mods: Modifiers, event: PointerEvent<P>) -> (
    P,
    Option<InputEvent<P>>,
) {
    match event.kind {
        PointerEventKind::Enter => (event.position, Some(InputEvent::PointerMoved(event.position))),
        PointerEventKind::Motion => (event.position, Some(InputEvent::PointerMoved(event.position))),
        PointerEventKind::Leave => (last, Some(InputEvent::PointerGone)),
        PointerEventKind::Press { button } => (
            last,
            match button_of_code(button) {
                Some(b) => Some(
                    InputEvent::PointerButton { pos: last, button: b, pressed: true, modifiers: mods },
                ),
                None => None,
            },
        ),
        PointerEventKind::Release { button } => (
            last,
            match button_of_code(button) {
                Some(b) => Some(
                    InputEvent::PointerButton { pos: last, button: b, pressed: false, modifiers: mods },
                ),
                None => None,
            },
        ),
        PointerEventKind::Axis { horizontal_discrete, vertical_discrete } => (
            last,
            Some(
                InputEvent::MouseWheel {
                    delta_x: (-horizontal_discrete) as i32,
                    delta_y: (-vertical_discrete) as i32,
                    modifiers: mods,
                },
            ),
        ),
    }
}

/// The GUI events a key press produces: the text it entered, if any, then
/// the key itself if it has a GUI name.
pub open spec fn key_translation<P>(mods: Modifiers, event: KeyEvent) -> Seq<InputEvent<P>> {
    let text = match event.utf8 {
        Some(t) => seq![InputEvent::Text(t)],
        None => Seq::empty(),
    };
    let key = match key_of_keysym(event.keysym) {
        Some(k) => seq![InputEvent::Key { key: k, pressed: true, repeat: false, modifiers: mods }],
        None => Seq::empty(),
    };
    text + key
}

/// The state of a fresh bar on the given surface, with the pointer at
/// `origin`.
pub open spec fn fresh_top_bar<P, E, S>(surface_id: u32, origin: P) -> TopBarView<P, E, S> {
    TopBarView {
        surface_id,
        width: 0,
        height: 0,
        egl_surface: None,
        wl_egl_surface: None,
        pointer_pos: origin,
        modifiers: no_modifiers(),
        pending: Seq::empty(),
        input_modifiers: no_modifiers(),
    }
}

impl<P: Copy, E: Copy, S> TopBar<P, E, S> {
    /// A bar on the layer surface with the given protocol id, not yet
    /// configured, with the pointer at `origin` and nothing queued.
    pub fn new(surface_id: u32, origin: P) -> (bar: Self)
        ensures
            bar@ == fresh_top_bar::<P, E, S>(surface_id, origin),
    {
        TopBar {
            surface_id,
            width: 0,
            height: 0,
            egl_surface: None,
            wl_egl_surface: None,
            pointer_pos: origin,
            modifiers: Modifiers::default(),
            pending: Vec::new(),
            input_modifiers: Modifiers::default(),
        }
    }
}

/// A bar in state `bar` can hand a frame to the renderer: it has a size, an
/// EGL surface, and a GL context exists.
pub open spec fn can_draw<P, E, S>(bar: TopBarView<P, E, S>, gl_ready: bool) -> bool {
    &&& bar.width != 0
    &&& bar.height != 0
    &&& bar.egl_surface is Some
    &&& gl_ready
}

impl<P: Copy, E: Copy, S> TopBar<P, E, S> {
    /// Queues `event` for the next frame.
    fn queue(&mut self, event: InputEvent<P>)
        ensures
            final(self)@ == (TopBarView {
                pending: old(self)@.pending + seq![event],
                ..old(self)@
            }),
    {
        let ghost before = self.pending@;
        let ghost queued = event;
        self.pending.push(event);
        assert(self.pending@ =~= before + seq![queued]);
    }

    /// Records that the pointer is now at `position` and queues the move.
    fn move_pointer(&mut self, position: P)
        ensures
            final(self)@ == (TopBarView {
                pointer_pos: position,
                pending: old(self)@.pending + seq![InputEvent::PointerMoved(position)],
                ..old(self)@
            }),
    {
        self.pointer_pos = position;
        self.queue(InputEvent::PointerMoved(position));
    }
}

impl<P: Copy, E: Copy, S> Widget for TopBar<P, E, S> {
    type Position = P;

    type EglSurface = E;

    type WlEglSurface = S;

    open spec fn surface_spec(&self) -> u32 {
        self@.surface_id
    }

    open spec fn size_spec(&self) -> (u32, u32) {
        (self@.width, self@.height)
    }

    open spec fn egl_surface_spec(&self) -> Option<E> {
        self@.egl_surface
    }

    open spec fn wl_egl_surface_spec(&self) -> Option<S> {
        self@.wl_egl_surface
    }

    open spec fn resized(&self, width: u32, height: u32, next: Self) -> bool {
        next@ == TopBarView { width, height, ..self@ }
    }

    open spec fn accepts_pointer_event(event: PointerEvent<P>) -> bool {
        pointer_event_in_range(event)
    }

    open spec fn pointer_handled(&self, event: PointerEvent<P>, next: Self, redraw: bool) -> bool {
        let (pos, queued) = pointer_translation(self@.pointer_pos, self@.modifiers, event);
        &&& next@ == TopBarView {
            pointer_pos: pos,
            pending: self@.pending + seq_of_option(queued),
            ..self@
        }
        &&& redraw == queued is Some
    }

    open spec fn key_handled(&self, event: KeyEvent, next: Self) -> bool {
        next@ == TopBarView {
            pending: self@.pending + key_translation(self@.modifiers, event),
            ..self@
        }
    }

    open spec fn modifiers_handled(&self, modifiers: SeatModifiers, next: Self) -> bool {
        next@ == TopBarView {
            modifiers: gui_modifiers(modifiers),
            input_modifiers: gui_modifiers(modifiers),
            ..self@
        }
    }

    open spec fn drawn(&self, gl_ready: bool, next: Self, frame: Option<FrameInput<P, E>>) -> bool {
        if can_draw(self@, gl_ready) {
            &&& frame matches Some(f) && {
                &&& f.surface == self@.egl_surface.unwrap()
                &&& f.width == self@.width
                &&& f.height == self@.height
                &&& f.events@ == self@.pending
                &&& f.modifiers == self@.input_modifiers
            }
            &&& next@ == TopBarView { pending: Seq::empty(), ..self@ }
        } else {
            &&& frame is None
            &&& next@ == self@
        }
    }

    fn surface_id(&self) -> (id: u32) {
        self.surface_id
    }

    fn size(&self) -> (size: (u32, u32)) {
        (self.width, self.height)
    }

    fn set_size(&mut self, width: u32, height: u32) {
        self.width = width;
        self.height = height;
    }

    fn handle_pointer_event(&mut self, pointer_event: &PointerEvent<P>) -> (redraw: bool) {
        match pointer_event.kind {
            PointerEventKind::Enter => {
                self.move_pointer(pointer_event.position);
                true
            },
            PointerEventKind::Motion => {
                self.move_pointer(pointer_event.position);
                true
            },
            PointerEventKind::Leave => {
                self.queue(InputEvent::PointerGone);
                true
            },
            PointerEventKind::Press { button } => {
                match wayland_to_egui_button(button) {
                    Some(btn) => {
                        self.queue(
                            InputEvent::PointerButton {
                                pos: self.pointer_pos,
                                button: btn,
                                pressed: true,
                                modifiers: self.modifiers,
                            },
                        );
                        true
                    },
                    None => false,
                }
            },
            PointerEventKind::Release { button } => {
                match wayland_to_egui_button(button) {
                    Some(btn) => {
                        self.queue(
                            InputEvent::PointerButton {
                                pos: self.pointer_pos,
                                button: btn,
                                pressed: false,
                                modifiers: self.modifiers,
                            },
                        );
                        true
                    },
                    None => false,
                }
            },
            PointerEventKind::Axis { horizontal_discrete, vertical_discrete } => {
                self.queue(
                    InputEvent::MouseWheel {
                        delta_x: -horizontal_discrete,
                        delta_y: -vertical_discrete,
                        modifiers: self.modifiers,
                    },
                );
                true
            },
        }
    }

    fn handle_keyboard_event(&mut self, keyboard_event: &KeyEvent) {
        let ghost before = self.pending@;
        let ghost added: Seq<InputEvent<P>> = key_translation(self.modifiers, *keyboard_event);
        if let Some(text) = &keyboard_event.utf8 {
            self.pending.push(InputEvent::Text(text.clone()));
        }
        if let Some(key) = keysym_to_egui_key(keyboard_event.keysym) {
            self.pending.push(
                InputEvent::Key { key, pressed: true, repeat: false, modifiers: self.modifiers },
            );
        }
        assert(self.pending@ == before + added);
    }

    fn handle_keyboard_modifiers(&mut self, modifiers: &SeatModifiers) {
        let gui_mods = to_egui_modifiers(modifiers);
        self.modifiers = gui_mods;
        self.input_modifiers = gui_mods;
    }

    fn egl_surface(&self) -> (surface: Option<E>) {
        self.egl_surface
    }

    fn set_egl_surface(&mut self, egl_surface: E)
        ensures
            final(self)@ == (TopBarView { egl_surface: Some(egl_surface), ..old(self)@ }),
    {
        self.egl_surface = Some(egl_surface);
    }

    fn wl_egl_surface(&self) -> (surface: Option<&S>) {
        self.wl_egl_surface.as_ref()
    }

    fn set_wl_egl_surface(&mut self, wl_egl_surface: S)
        ensures
            final(self)@ == (TopBarView { wl_egl_surface: Some(wl_egl_surface), ..old(self)@ }),
    {
        self.wl_egl_surface = Some(wl_egl_surface);
    }

    fn draw_widget(&mut self, gl_ready: bool) -> (frame: Option<FrameInput<P, E>>) {
        if self.width == 0 || self.height == 0 {
            return None;
        }
        match self.egl_surface {
            Some(surface) => {
                if gl_ready {
                    let mut events: Vec<InputEvent<P>> = Vec::new();
                    std::mem::swap(&mut events, &mut self.pending);
                    Some(
                        FrameInput {
                            surface,
                            width: self.width,
                            height: self.height,
                            events,
                            modifiers: self.input_modifiers,
                        },
                    )
                } else {
                    None
                }
            },
            None => None,
        }
    }
}

/// The events a frame hands to the renderer, or none when there is no frame.
pub open spec fn frame_events<P, E>(frame: Option<FrameInput<P, E>>) -> Seq<InputEvent<P>> {
    match frame {
        Some(f) => f.events@,
        None => Seq::empty(),
    }
}

/// The Linux button code of a press or release.
pub open spec fn button_code(kind: PointerEventKind) -> u32 {
    match kind {
        PointerEventKind::Press { button } => button,
        PointerEventKind::Release { button } => button,
        _ => 0,
    }
}

/// Only entering and moving over the bar move the pointer: leaving, buttons
/// and the wheel leave the last known position as it was.
pub proof fn lemma_only_motion_moves_pointer<P: Copy, E: Copy, S>(
    bar: TopBar<P, E, S>,
    event: PointerEvent<P>,
    next: TopBar<P, E, S>,
    redraw: bool,
)
    requires
        bar.pointer_handled(event, next, redraw),
    ensures
        next@.pointer_pos == match event.kind {
            PointerEventKind::Enter | PointerEventKind::Motion => event.position,
            _ => bar@.pointer_pos,
        },
{
}

/// A button pressed or released right after the pointer entered or moved to
/// a position is reported at that position, with the current modifiers.
pub proof fn lemma_button_reported_at_last_position<P: Copy, E: Copy, S>(
    bar: TopBar<P, E, S>,
    moved: PointerEvent<P>,
    after_move: TopBar<P, E, S>,
    redraw_move: bool,
    button: PointerEvent<P>,
    after_button: TopBar<P, E, S>,
    redraw_button: bool,
)
    requires
        moved.kind is Enter || moved.kind is Motion,
        bar.pointer_handled(moved, after_move, redraw_move),
        after_move.pointer_handled(button, after_button, redraw_button),
        (button.kind matches PointerEventKind::Press { button: code } && button_of_code(code) is Some)
            || (button.kind matches PointerEventKind::Release { button: code } && button_of_code(
            code,
        ) is Some),
    ensures
        redraw_button,
        after_button@.pending.len() == bar@.pending.len() + 2,
        after_button@.pending.last() == (InputEvent::PointerButton {
            pos: moved.position,
            button: button_of_code(button_code(button.kind)).unwrap(),
            pressed: button.kind is Press,
            modifiers: bar@.modifiers,
        }),
{
}

/// Taking any input or a new size only ever appends to the queued events:
/// what was queued before stays queued, in the same order.
pub proof fn lemma_queue_only_grows<P: Copy, E: Copy, S>(
    bar: TopBar<P, E, S>,
    pointer: PointerEvent<P>,
    key: KeyEvent,
    modifiers: SeatModifiers,
    width: u32,
    height: u32,
    next: TopBar<P, E, S>,
    redraw: bool,
)
    requires
        bar.pointer_handled(pointer, next, redraw) || bar.key_handled(key, next)
            || bar.modifiers_handled(modifiers, next) || bar.resized(width, height, next),
    ensures
        bar@.pending.len() <= next@.pending.len(),
        next@.pending.subrange(0, bar@.pending.len() as int) == bar@.pending,
{
    assert(next@.pending.subrange(0, bar@.pending.len() as int) =~= bar@.pending);
}

/// A draw request hands every queued event to the renderer at most once and
/// loses none: the frame's events followed by what stays queued are exactly
/// what was queued before.
pub proof fn lemma_draw_loses_no_input<P: Copy, E: Copy, S>(
    bar: TopBar<P, E, S>,
    gl_ready: bool,
    next: TopBar<P, E, S>,
    frame: Option<FrameInput<P, E>>,
)
    requires
        bar.drawn(gl_ready, next, frame),
    ensures
        frame_events(frame) + next@.pending == bar@.pending,
{
    assert(frame_events(frame) + next@.pending =~= bar@.pending);
}

/// Two frames drawn back to back: the second one receives no input, since the
/// first one took all of it.
pub proof fn lemma_second_frame_is_empty<P: Copy, E: Copy, S>(
    bar: TopBar<P, E, S>,
    gl_ready: bool,
    first: TopBar<P, E, S>,
    first_frame: Option<FrameInput<P, E>>,
    second: TopBar<P, E, S>,
    second_frame: Option<FrameInput<P, E>>,
)
    requires
        bar.drawn(gl_ready, first, first_frame),
        first.drawn(gl_ready, second, second_frame),
        first_frame is Some,
    ensures
        second_frame matches Some(f) && f.events@.len() == 0,
        second@ == first@,
{
}

/// The modifiers last reported by the keyboard are the ones attached to the
/// next key press and to the next frame.
pub proof fn lemma_key_carries_latest_modifiers<P: Copy, E: Copy, S>(
    bar: TopBar<P, E, S>,
    modifiers: SeatModifiers,
    after_modifiers: TopBar<P, E, S>,
    key: KeyEvent,
    after_key: TopBar<P, E, S>,
)
    requires
        bar.modifiers_handled(modifiers, after_modifiers),
        after_modifiers.key_handled(key, after_key),
        key_of_keysym(key.keysym) is Some,
    ensures
        after_key@.pending.last() == (InputEvent::<P>::Key {
            key: key_of_keysym(key.keysym).unwrap(),
            pressed: true,
            repeat: false,
            modifiers: gui_modifiers(modifiers),
        }),
        after_key@.input_modifiers == gui_modifiers(modifiers),
{
    let added: Seq<InputEvent<P>> = key_translation(after_modifiers@.modifiers, key);
    assert(after_key@.pending == after_modifiers@.pending + added);
}

/// The modifiers last reported by the keyboard are the ones attached to the
/// next button or wheel event the bar queues.
pub proof fn lemma_pointer_carries_latest_modifiers<P: Copy, E: Copy, S>(
    bar: TopBar<P, E, S>,
    modifiers: SeatModifiers,
    after_modifiers: TopBar<P, E, S>,
    event: PointerEvent<P>,
    after_event: TopBar<P, E, S>,
    redraw: bool,
)
    requires
        bar.modifiers_handled(modifiers, after_modifiers),
        after_modifiers.pointer_handled(event, after_event, redraw),
        event.kind is Press || event.kind is Release || event.kind is Axis,
        redraw,
    ensures
        after_event@.pending.len() == bar@.pending.len() + 1,
        match after_event@.pending.last() {
            InputEvent::PointerButton { modifiers: m, .. } => m == gui_modifiers(modifiers),
            InputEvent::MouseWheel { modifiers: m, .. } => m == gui_modifiers(modifiers),
            _ => false,
        },
{
}

/// Once a bar has its surfaces, nothing it does on its own detaches them:
/// resizing, input and drawing all keep the attached surfaces.
pub proof fn lemma_surfaces_stay_attached<P: Copy, E: Copy, S>(
    bar: TopBar<P, E, S>,
    pointer: PointerEvent<P>,
    key: KeyEvent,
    modifiers: SeatModifiers,
    width: u32,
    height: u32,
    gl_ready: bool,
    frame: Option<FrameInput<P, E>>,
    next: TopBar<P, E, S>,
    redraw: bool,
)
    requires
        bar.pointer_handled(pointer, next, redraw) || bar.key_handled(key, next)
            || bar.modifiers_handled(modifiers, next) || bar.resized(width, height, next)
            || bar.drawn(gl_ready, next, frame),
    ensures
        next@.egl_surface == bar@.egl_surface,
        next@.wl_egl_surface == bar@.wl_egl_surface,
        next@.surface_id == bar@.surface_id,
{
}

/// One call of a top bar's state-changing methods, with its arguments and, for
/// the calls that return something, what it returned.
pub enum TopBarCall<P, E, S> {
    SetSize { width: u32, height: u32 },
    SetEglSurface { egl_surface: E },
    SetWlEglSurface { wl_egl_surface: S },
    Pointer { event: PointerEvent<P>, redraw: bool },
    Key { key_event: KeyEvent },
    Modifiers { modifiers: SeatModifiers },
    Draw { gl_ready: bool, frame: Option<FrameInput<P, E>> },
}

/// `next` is `bar` after `call`, as the method's contract states it.
pub open spec fn call_effect<P: Copy, E: Copy, S>(
    bar: TopBar<P, E, S>,
    call: TopBarCall<P, E, S>,
    next: TopBar<P, E, S>,
) -> bool {
    match call {
        TopBarCall::SetSize { width, height } => bar.resized(width, height, next),
        TopBarCall::SetEglSurface { egl_surface } => next@ == (TopBarView {
            egl_surface: Some(egl_surface),
            ..bar@
        }),
        TopBarCall::SetWlEglSurface { wl_egl_surface } => next@ == (TopBarView {
            wl_egl_surface: Some(wl_egl_surface),
            ..bar@
        }),
        TopBarCall::Pointer { event, redraw } => bar.pointer_handled(event, next, redraw),
        TopBarCall::Key { key_event } => bar.key_handled(key_event, next),
        TopBarCall::Modifiers { modifiers } => bar.modifiers_handled(modifiers, next),
        TopBarCall::Draw { gl_ready, frame } => bar.drawn(gl_ready, next, frame),
    }
}

/// `bars` are the states of one bar before and after each call in `calls`.
pub open spec fn is_call_sequence<P: Copy, E: Copy, S>(
    bars: Seq<TopBar<P, E, S>>,
    calls: Seq<TopBarCall<P, E, S>>,
) -> bool {
    &&& bars.len() == calls.len() + 1
    &&& forall|j: int| 0 <= j < calls.len() ==> call_effect(bars[j], #[trigger] calls[j], bars[j + 1])
}

proof fn lemma_size_kept<P: Copy, E: Copy, S>(
    bars: Seq<TopBar<P, E, S>>,
    calls: Seq<TopBarCall<P, E, S>>,
    k: int,
    j: int,
)
    requires
        is_call_sequence(bars, calls),
        0 <= k < j <= calls.len(),
        calls[k] is SetSize,
        forall|m: int| k < m < calls.len() ==> !(#[trigger] calls[m] is SetSize),
    ensures
        bars[j].size_spec() == (calls[k]->SetSize_width, calls[k]->SetSize_height),
    decreases j - k,
{
    if j > k + 1 {
        lemma_size_kept(bars, calls, k, j - 1);
        assert(call_effect(bars[j - 1], calls[j - 1], bars[j]));
    } else {
        assert(call_effect(bars[k], calls[k], bars[k + 1]));
    }
}

/// The size of a bar is the one last set: after any sequence of calls, the
/// last `set_size` among them decides the size.
pub proof fn lemma_last_size_wins<P: Copy, E: Copy, S>(
    bars: Seq<TopBar<P, E, S>>,
    calls: Seq<TopBarCall<P, E, S>>,
    k: int,
)
    requires
        is_call_sequence(bars, calls),
        0 <= k < calls.len(),
        calls[k] is SetSize,
        forall|m: int| k < m < calls.len() ==> !(#[trigger] calls[m] is SetSize),
    ensures
        bars.last().size_spec() == (calls[k]->SetSize_width, calls[k]->SetSize_height),
{
    lemma_size_kept(bars, calls, k, calls.len() as int);
}

proof fn lemma_egl_surface_kept<P: Copy, E: Copy, S>(
    bars: Seq<TopBar<P, E, S>>,
    calls: Seq<TopBarCall<P, E, S>>,
    k: int,
    j: int,
)
    requires
        is_call_sequence(bars, calls),
        0 <= k < j <= calls.len(),
        calls[k] is SetEglSurface,
        forall|m: int| k < m < calls.len() ==> !(#[trigger] calls[m] is SetEglSurface),
    ensures
        bars[j].egl_surface_spec() == Some(calls[k]->egl_surface),
    decreases j - k,
{
    if j > k + 1 {
        lemma_egl_surface_kept(bars, calls, k, j - 1);
        assert(call_effect(bars[j - 1], calls[j - 1], bars[j]));
    } else {
        assert(call_effect(bars[k], calls[k], bars[k + 1]));
    }
}

/// The EGL surface of a bar is the one last set: after any sequence of calls,
/// the last `set_egl_surface` among them decides it.
pub proof fn lemma_last_egl_surface_wins<P: Copy, E: Copy, S>(
    bars: Seq<TopBar<P, E, S>>,
    calls: Seq<TopBarCall<P, E, S>>,
    k: int,
)
    requires
        is_call_sequence(bars, calls),
        0 <= k < calls.len(),
        calls[k] is SetEglSurface,
        forall|m: int| k < m < calls.len() ==> !(#[trigger] calls[m] is SetEglSurface),
    ensures
        bars.last().egl_surface_spec() == Some(calls[k]->egl_surface),
{
    lemma_egl_surface_kept(bars, calls, k, calls.len() as int);
}

proof fn lemma_wl_egl_surface_kept<P: Copy, E: Copy, S>(
    bars: Seq<TopBar<P, E, S>>,
    calls: Seq<TopBarCall<P, E, S>>,
    k: int,
    j: int,
)
    requires
        is_call_sequence(bars, calls),
        0 <= k < j <= calls.len(),
        calls[k] is SetWlEglSurface,
        forall|m: int| k < m < calls.len() ==> !(#[trigger] calls[m] is SetWlEglSurface),
    ensures
        bars[j].wl_egl_surface_spec() == Some(calls[k]->wl_egl_surface),
    decreases j - k,
{
    if j > k + 1 {
        lemma_wl_egl_surface_kept(bars, calls, k, j - 1);
        assert(call_effect(bars[j - 1], calls[j - 1], bars[j]));
    } else {
        assert(call_effect(bars[k], calls[k], bars[k + 1]));
    }
}

/// The native window of a bar is the very one last set: after any sequence
/// of calls, the last `set_wl_egl_surface` among them decides it.
pub proof fn lemma_last_wl_egl_surface_wins<P: Copy, E: Copy, S>(
    bars: Seq<TopBar<P, E, S>>,
    calls: Seq<TopBarCall<P, E, S>>,
    k: int,
)
    requires
        is_call_sequence(bars, calls),
        0 <= k < calls.len(),
        calls[k] is SetWlEglSurface,
        forall|m: int| k < m < calls.len() ==> !(#[trigger] calls[m] is SetWlEglSurface),
    ensures
        bars.last().wl_egl_surface_spec() == Some(calls[k]->wl_egl_surface),
{
    lemma_wl_egl_surface_kept(bars, calls, k, calls.len() as int);
}

/// A fresh bar shows on the given surface, has no size and no surfaces, has
/// the pointer at the given origin, holds no modifiers, and has nothing queued.
pub proof fn lemma_fresh_bar<P, E, S>(surface_id: u32, origin: P)
    ensures
        fresh_top_bar::<P, E, S>(surface_id, origin).surface_id == surface_id,
        fresh_top_bar::<P, E, S>(surface_id, origin).width == 0,
        fresh_top_bar::<P, E, S>(surface_id, origin).height == 0,
        fresh_top_bar::<P, E, S>(surface_id, origin).egl_surface is None,
        fresh_top_bar::<P, E, S>(surface_id, origin).wl_egl_surface is None,
        fresh_top_bar::<P, E, S>(surface_id, origin).pointer_pos == origin,
        fresh_top_bar::<P, E, S>(surface_id, origin).pending.len() == 0,
        fresh_top_bar::<P, E, S>(surface_id, origin).modifiers == (Modifiers {
            alt: false,
            ctrl: false,
            shift: false,
            mac_cmd: false,
            command: false,
        }),
        fresh_top_bar::<P, E, S>(surface_id, origin).input_modifiers == (Modifiers {
            alt: false,
            ctrl: false,
            shift: false,
            mac_cmd: false,
            command: false,
        }),
{
}

/// Resizing changes the size to exactly the one given and nothing else.
pub proof fn lemma_resize_effect<P: Copy, E: Copy, S>(
    bar: TopBar<P, E, S>,
    width: u32,
    height: u32,
    next: TopBar<P, E, S>,
)
    requires
        bar.resized(width, height, next),
    ensures
        next@.width == width,
        next@.height == height,
        next@.surface_id == bar@.surface_id,
        next@.egl_surface == bar@.egl_surface,
        next@.wl_egl_surface == bar@.wl_egl_surface,
        next@.pointer_pos == bar@.pointer_pos,
        next@.modifiers == bar@.modifiers,
        next@.input_modifiers == bar@.input_modifiers,
        next@.pending == bar@.pending,
{
}

/// What one pointer event does to a bar.
///
/// Entering and motion move the pointer to the event's position and queue a
/// move there; leaving queues that the pointer is gone; pressing or releasing
/// the left, right or middle button queues a primary, secondary or middle
/// button event at the last known position with the current modifiers; any
/// other button queues nothing; the wheel queues a scroll by exactly the
/// negated step counts. The bar must be redrawn exactly when something was
/// queued, and nothing but the pointer position and the queue changes.
pub proof fn lemma_pointer_event_effect<P: Copy, E: Copy, S>(
    bar: TopBar<P, E, S>,
    event: PointerEvent<P>,
    next: TopBar<P, E, S>,
    redraw: bool,
)
    requires
        bar.pointer_handled(event, next, redraw),
        pointer_event_in_range(event),
    ensures
        next@.surface_id == bar@.surface_id,
        next@.width == bar@.width,
        next@.height == bar@.height,
        next@.egl_surface == bar@.egl_surface,
        next@.wl_egl_surface == bar@.wl_egl_surface,
        next@.modifiers == bar@.modifiers,
        next@.input_modifiers == bar@.input_modifiers,
        redraw <==> next@.pending.len() == bar@.pending.len() + 1,
        !redraw ==> next@.pending == bar@.pending,
        redraw ==> next@.pending == bar@.pending.push(next@.pending.last()),
        (event.kind is Enter || event.kind is Motion) ==> {
            &&& next@.pointer_pos == event.position
            &&& redraw
            &&& next@.pending.last() == InputEvent::PointerMoved(event.position)
        },
        !(event.kind is Enter || event.kind is Motion) ==> next@.pointer_pos == bar@.pointer_pos,
        event.kind is Leave ==> redraw && next@.pending.last() == InputEvent::<P>::PointerGone,
        (event.kind is Press || event.kind is Release) ==> (redraw <==> (0x110 <= button_code(
            event.kind,
        ) && button_code(event.kind) <= 0x112)),
        (event.kind is Press || event.kind is Release) && redraw ==> next@.pending.last() == (
        InputEvent::PointerButton {
            pos: bar@.pointer_pos,
            button: if button_code(event.kind) == 0x110 {
                crate::input::PointerButton::Primary
            } else if button_code(event.kind) == 0x111 {
                crate::input::PointerButton::Secondary
            } else {
                crate::input::PointerButton::Middle
            },
            pressed: event.kind is Press,
            modifiers: bar@.modifiers,
        }),
        event.kind is Axis ==> redraw && (next@.pending.last() matches InputEvent::MouseWheel {
            delta_x,
            delta_y,
            modifiers,
        } && delta_x == -event.kind->horizontal_discrete && delta_y
            == -event.kind->vertical_discrete && modifiers == bar@.modifiers),
{
    assert(next@.pending =~= bar@.pending + seq_of_option(
        pointer_translation(bar@.pointer_pos, bar@.modifiers, event).1,
    ));
}

/// What one key press does to a bar: it queues the entered text, if any,
/// whatever the key, and then the key itself, if it has a GUI name, pressed,
/// not repeated, with the current modifiers. Nothing else changes.
pub proof fn lemma_key_event_effect<P: Copy, E: Copy, S>(
    bar: TopBar<P, E, S>,
    event: KeyEvent,
    next: TopBar<P, E, S>,
)
    requires
        bar.key_handled(event, next),
    ensures
        next@.surface_id == bar@.surface_id,
        next@.width == bar@.width,
        next@.height == bar@.height,
        next@.egl_surface == bar@.egl_surface,
        next@.wl_egl_surface == bar@.wl_egl_surface,
        next@.pointer_pos == bar@.pointer_pos,
        next@.modifiers == bar@.modifiers,
        next@.input_modifiers == bar@.input_modifiers,
        next@.pending.len() == bar@.pending.len() + (if event.utf8 is Some {
            1int
        } else {
            0int
        }) + (if key_of_keysym(event.keysym) is Some {
            1int
        } else {
            0int
        }),
        next@.pending.subrange(0, bar@.pending.len() as int) == bar@.pending,
        event.utf8 matches Some(t) ==> next@.pending[bar@.pending.len() as int]
            == InputEvent::<P>::Text(t),
        key_of_keysym(event.keysym) matches Some(k) ==> next@.pending.last() == (
        InputEvent::<P>::Key { key: k, pressed: true, repeat: false, modifiers: bar@.modifiers }),
{
    assert(next@.pending.subrange(0, bar@.pending.len() as int) =~= bar@.pending);
}

/// A modifier update sets both the modifiers of later events and those of the
/// next frame to the seat's alt, control and shift, with command following
/// control and no Mac command key; nothing else changes.
pub proof fn lemma_modifiers_effect<P: Copy, E: Copy, S>(
    bar: TopBar<P, E, S>,
    modifiers: SeatModifiers,
    next: TopBar<P, E, S>,
)
    requires
        bar.modifiers_handled(modifiers, next),
    ensures
        next@.modifiers == (Modifiers {
            alt: modifiers.alt,
            ctrl: modifiers.ctrl,
            shift: modifiers.shift,
            mac_cmd: false,
            command: modifiers.ctrl,
        }),
        next@.input_modifiers == next@.modifiers,
        next@.surface_id == bar@.surface_id,
        next@.width == bar@.width,
        next@.height == bar@.height,
        next@.egl_surface == bar@.egl_surface,
        next@.wl_egl_surface == bar@.wl_egl_surface,
        next@.pointer_pos == bar@.pointer_pos,
        next@.pending == bar@.pending,
{
}

/// What a draw request does: a frame comes exactly when the bar has a width,
/// a height, an EGL surface and a GL context; it carries that surface, the
/// bar's size, every queued event in order and the current modifiers, and
/// only the queue is emptied. Without a frame nothing changes. Drawing never
/// changes the modifiers or the pointer position.
pub proof fn lemma_draw_effect<P: Copy, E: Copy, S>(
    bar: TopBar<P, E, S>,
    gl_ready: bool,
    next: TopBar<P, E, S>,
    frame: Option<FrameInput<P, E>>,
)
    requires
        bar.drawn(gl_ready, next, frame),
    ensures
        frame is Some <==> (bar@.width != 0 && bar@.height != 0 && bar@.egl_surface is Some
            && gl_ready),
        frame matches Some(f) ==> {
            &&& bar@.egl_surface == Some(f.surface)
            &&& f.width == bar@.width
            &&& f.height == bar@.height
            &&& f.events@ == bar@.pending
            &&& f.modifiers == bar@.input_modifiers
            &&& next@.pending.len() == 0
        },
        frame is None ==> next@ == bar@,
        next@.modifiers == bar@.modifiers,
        next@.input_modifiers == bar@.input_modifiers,
        next@.pointer_pos == bar@.pointer_pos,
        next@.surface_id == bar@.surface_id,
        next@.width == bar@.width,
        next@.height == bar@.height,
        next@.egl_surface == bar@.egl_surface,
        next@.wl_egl_surface == bar@.wl_egl_surface,
{
}

proof fn lemma_modifiers_kept<P: Copy, E: Copy, S>(
    bars: Seq<TopBar<P, E, S>>,
    calls: Seq<TopBarCall<P, E, S>>,
    k: int,
    j: int,
)
    requires
        is_call_sequence(bars, calls),
        0 <= k < j <= calls.len(),
        calls[k] is Modifiers,
        forall|m: int| k < m < calls.len() ==> !(#[trigger] calls[m] is Modifiers),
    ensures
        bars[j]@.modifiers == gui_modifiers(calls[k]->modifiers),
        bars[j]@.input_modifiers == gui_modifiers(calls[k]->modifiers),
    decreases j - k,
{
    if j > k + 1 {
        lemma_modifiers_kept(bars, calls, k, j - 1);
        assert(call_effect(bars[j - 1], calls[j - 1], bars[j]));
    } else {
        assert(call_effect(bars[k], calls[k], bars[k + 1]));
    }
}

/// The modifiers the keyboard last reported stay in force across any later
/// input, resizing and drawn frames, until the next modifier update: the
/// events and frames after them carry exactly the seat's alt, control and
/// shift, with command following control.
pub proof fn lemma_last_modifiers_win<P: Copy, E: Copy, S>(
    bars: Seq<TopBar<P, E, S>>,
    calls: Seq<TopBarCall<P, E, S>>,
    k: int,
)
    requires
        is_call_sequence(bars, calls),
        0 <= k < calls.len(),
        calls[k] is Modifiers,
        forall|m: int| k < m < calls.len() ==> !(#[trigger] calls[m] is Modifiers),
    ensures
        bars.last()@.modifiers == (Modifiers {
            alt: calls[k]->modifiers.alt,
            ctrl: calls[k]->modifiers.ctrl,
            shift: calls[k]->modifiers.shift,
            mac_cmd: false,
            command: calls[k]->modifiers.ctrl,
        }),
        bars.last()@.input_modifiers == bars.last()@.modifiers,
{
    lemma_modifiers_kept(bars, calls, k, calls.len() as int);
}

} // verus!
