# layer_panel

A Wayland layer-shell panel (a bar across the top of the output, drawn with
egui over EGL/OpenGL ES), split into a verified library and a thin program.

- `src/` is the library, verified with Verus:
  - `input`: seat input and GUI input events as plain values; the button,
    keysym and modifier mappings.
  - `widget`: the `Widget` interface, stated over abstract views, and the top
    bar (`widget::top_bar`), which queues GUI input and decides when a frame
    can be drawn.
  - `app`: the application state and the decisions of its compositor event
    handlers (configure, frame, pointer frames, seat capabilities, close);
    `app::builder` assembles it.
  - `egl`: the attribute lists handed to EGL.
- `app/` is the program: the Wayland connection, the handler impls of
  smithay-client-toolkit, EGL/GL setup and egui rendering. Each handler
  converts the event to plain values, asks the library what to do, and does it.
- `tests/` runs the library on concrete values.
