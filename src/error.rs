//! Errors reported to callers, and the names of the context's error codes.
use vstd::prelude::*;

verus! {

/// What can go wrong in a call into the renderer.
#[derive(Clone, Copy, Debug, PartialEq, Eq, Structural)]
pub enum RenderError {
    /// The pixels of an image do not match its dimensions and format.
    ImageDecodeError,
    /// A draw call index at or past the end of the registry.
    InvalidDrawCallIndex,
}

/// The name of a context error code, as the graphics API spells it.
pub open spec fn gl_error_name(error: u32) -> &'static str {
    if error == 0x0500 {
        "GL_INVALID_ENUM"
    } else if error == 0x0501 {
        "GL_INVALID_VALUE"
    } else if error == 0x0502 {
        "GL_INVALID_OPERATION"
    } else if error == 0x0503 {
        "GL_STACK_OVERFLOW"
    } else if error == 0x0504 {
        "GL_STACK_UNDERFLOW"
    } else if error == 0x0505 {
        "GL_OUT_OF_MEMORY"
    } else if error == 0x0506 {
        "GL_INVALID_FRAMEBUFFER_OPERATION"
    } else if error == 0x0507 {
        "GL_CONTEXT_LOST"
    } else if error == 0x0531 {
        "GL_TABLE_TOO_LARGE"
    } else {
        "unknown error"
    }
}

/// Names a context error code for the diagnostic channel.
pub fn gl_error_to_string(error: u32) -> (r: &'static str)
    ensures
        r@ == gl_error_name(error)@,
{
    match error {
        0x0500 => "GL_INVALID_ENUM",
        0x0501 => "GL_INVALID_VALUE",
        0x0502 => "GL_INVALID_OPERATION",
        0x0503 => "GL_STACK_OVERFLOW",
        0x0504 => "GL_STACK_UNDERFLOW",
        0x0505 => "GL_OUT_OF_MEMORY",
        0x0506 => "GL_INVALID_FRAMEBUFFER_OPERATION",
        0x0507 => "GL_CONTEXT_LOST",
        0x0531 => "GL_TABLE_TOO_LARGE",
        _ => "unknown error",
    }
}

} // verus!
