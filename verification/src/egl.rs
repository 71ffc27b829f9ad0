//! What the panel asks EGL for: the attribute lists of its framebuffer
//! configuration and of its rendering context.

use vstd::prelude::*;

verus! {

/// `EGL_RED_SIZE`.
pub const EGL_RED_SIZE: i32 = 0x3024;

/// `EGL_GREEN_SIZE`.
pub const EGL_GREEN_SIZE: i32 = 0x3023;

/// `EGL_BLUE_SIZE`.
pub const EGL_BLUE_SIZE: i32 = 0x3022;

/// `EGL_ALPHA_SIZE`.
pub const EGL_ALPHA_SIZE: i32 = 0x3021;

/// `EGL_RENDERABLE_TYPE`.
pub const EGL_RENDERABLE_TYPE: i32 = 0x3040;

/// `EGL_OPENGL_ES2_BIT`.
pub const EGL_OPENGL_ES2_BIT: i32 = 0x0004;

/// `EGL_SURFACE_TYPE`.
pub const EGL_SURFACE_TYPE: i32 = 0x3033;

/// `EGL_WINDOW_BIT`.
pub const EGL_WINDOW_BIT: i32 = 0x0004;

/// `EGL_NONE`, which ends every attribute list.
pub const EGL_NONE: i32 = 0x3038;

/// `EGL_CONTEXT_CLIENT_VERSION`.
pub const EGL_CONTEXT_CLIENT_VERSION: i32 = 0x3098;

/// The framebuffer configuration the panel needs: eight bits for each of red,
/// green, blue and alpha, renderable with OpenGL ES 2, usable for windows.
pub open spec fn spec_config_attributes() -> Seq<i32> {
    seq![
        EGL_RED_SIZE, 8,
        EGL_GREEN_SIZE, 8,
        EGL_BLUE_SIZE, 8,
        EGL_ALPHA_SIZE, 8,
        EGL_RENDERABLE_TYPE, EGL_OPENGL_ES2_BIT,
        EGL_SURFACE_TYPE, EGL_WINDOW_BIT,
        EGL_NONE,
    ]
}

/// The rendering context the panel needs: OpenGL ES 2.
pub open spec fn spec_context_attributes() -> Seq<i32> {
    seq![EGL_CONTEXT_CLIENT_VERSION, 2, EGL_NONE]
}

/// The attribute list handed to `eglChooseConfig`.
pub fn config_attributes() -> (attributes: Vec<i32>)
    ensures
        attributes@ == spec_config_attributes(),
{
    let attributes: Vec<i32> = vec![
        EGL_RED_SIZE, 8,
        EGL_GREEN_SIZE, 8,
        EGL_BLUE_SIZE, 8,
        EGL_ALPHA_SIZE, 8,
        EGL_RENDERABLE_TYPE, EGL_OPENGL_ES2_BIT,
        EGL_SURFACE_TYPE, EGL_WINDOW_BIT,
        EGL_NONE,
    ];
    attributes
}

/// The attribute list handed to `eglCreateContext`.
pub fn context_attributes() -> (attributes: Vec<i32>)
    ensures
        attributes@ == spec_context_attributes(),
{
    let attributes: Vec<i32> = vec![EGL_CONTEXT_CLIENT_VERSION, 2, EGL_NONE];
    attributes
}

/// Every attribute list the panel hands to EGL is well formed: name-value
/// pairs followed by a terminating `EGL_NONE`, with no name before the end
/// being `EGL_NONE`.
pub proof fn lemma_attribute_lists_are_terminated()
    ensures
        spec_config_attributes().len() % 2 == 1,
        spec_config_attributes().last() == EGL_NONE,
        forall|i: int|
            0 <= i < spec_config_attributes().len() - 1 && i % 2 == 0
                ==> spec_config_attributes()[i] != EGL_NONE,
        spec_context_attributes().len() % 2 == 1,
        spec_context_attributes().last() == EGL_NONE,
        forall|i: int|
            0 <= i < spec_context_attributes().len() - 1 && i % 2 == 0
                ==> spec_context_attributes()[i] != EGL_NONE,
{
}

/// The configuration asks for 8-bit red, green, blue and alpha channels,
/// OpenGL ES 2 rendering and window surfaces, and the context for OpenGL ES 2,
/// by their EGL attribute numbers.
pub proof fn lemma_attribute_values()
    ensures
        spec_config_attributes() == seq![
            0x3024i32, 8, 0x3023, 8, 0x3022, 8, 0x3021, 8, 0x3040, 0x0004, 0x3033, 0x0004, 0x3038,
        ],
        spec_context_attributes() == seq![0x3098i32, 2, 0x3038],
{
}

} // verus!
