//! The tokens of GLX: the numbers that stand for attributes and their values in
//! the lists handed to libGL.
//!
//! The constants give the value of each token, for contracts to speak of. The
//! executable code takes the tokens from the bindings of `glutin_glx_sys`, whose
//! constants are generated from the Khronos registry (`glx.xml`). That a binding
//! has the value stated here is believed, not proved: each function below is
//! trusted on that point and on nothing else.

use vstd::prelude::*;

use glutin_glx_sys::{glx, glx_extra};
use libc::c_int;

verus! {

pub const GLX_X_RENDERABLE: c_int = 0x8012;

pub const GLX_X_VISUAL_TYPE: c_int = 0x22;

pub const GLX_TRUE_COLOR: c_int = 0x8002;

pub const GLX_VISUAL_ID: c_int = 0x800B;

pub const GLX_DRAWABLE_TYPE: c_int = 0x8010;

pub const GLX_WINDOW_BIT: c_int = 0x1;

pub const GLX_RENDER_TYPE: c_int = 0x8011;

pub const GLX_RGBA_BIT: c_int = 0x1;

pub const GLX_RGBA_FLOAT_BIT_ARB: c_int = 0x4;

pub const GLX_RED_SIZE: c_int = 8;

pub const GLX_GREEN_SIZE: c_int = 9;

pub const GLX_BLUE_SIZE: c_int = 10;

pub const GLX_ALPHA_SIZE: c_int = 11;

pub const GLX_DEPTH_SIZE: c_int = 12;

pub const GLX_STENCIL_SIZE: c_int = 13;

pub const GLX_DOUBLEBUFFER: c_int = 5;

pub const GLX_SAMPLE_BUFFERS_ARB: c_int = 100000;

pub const GLX_SAMPLES_ARB: c_int = 100001;

pub const GLX_SAMPLE_BUFFERS: c_int = 100000;

pub const GLX_SAMPLES: c_int = 100001;

pub const GLX_STEREO: c_int = 6;

pub const GLX_FRAMEBUFFER_SRGB_CAPABLE_ARB: c_int = 0x20B2;

pub const GLX_FRAMEBUFFER_SRGB_CAPABLE_EXT: c_int = 0x20B2;

pub const GLX_CONTEXT_RELEASE_BEHAVIOR_ARB: c_int = 0x2097;

pub const GLX_CONTEXT_RELEASE_BEHAVIOR_NONE_ARB: c_int = 0;

pub const GLX_CONFIG_CAVEAT: c_int = 0x20;

pub const GLX_SLOW_CONFIG: c_int = 0x8001;

pub const GLX_DONT_CARE: c_int = -1;

pub const GLX_CONTEXT_MAJOR_VERSION_ARB: c_int = 0x2091;

pub const GLX_CONTEXT_MINOR_VERSION_ARB: c_int = 0x2092;

pub const GLX_CONTEXT_PROFILE_MASK_ARB: c_int = 0x9126;

pub const GLX_CONTEXT_CORE_PROFILE_BIT_ARB: c_int = 0x1;

pub const GLX_CONTEXT_COMPATIBILITY_PROFILE_BIT_ARB: c_int = 0x2;

pub const GLX_CONTEXT_RESET_NOTIFICATION_STRATEGY_ARB: c_int = 0x8256;

pub const GLX_NO_RESET_NOTIFICATION_ARB: c_int = 0x8261;

pub const GLX_LOSE_CONTEXT_ON_RESET_ARB: c_int = 0x8252;

pub const GLX_CONTEXT_FLAGS_ARB: c_int = 0x2094;

pub const GLX_CONTEXT_DEBUG_BIT_ARB: c_int = 0x1;

pub const GLX_CONTEXT_ROBUST_ACCESS_BIT_ARB: c_int = 0x4;

/// `glutin_glx_sys::glx::X_RENDERABLE`,
/// cast to an `int`: the token `GLX_X_RENDERABLE` (0x8012).
#[verifier::external_body]
pub(crate) fn x_renderable() -> (token: c_int)
    ensures
        token == GLX_X_RENDERABLE,
{
    glx::X_RENDERABLE as c_int
}

/// `glutin_glx_sys::glx::X_VISUAL_TYPE`,
/// cast to an `int`: the token `GLX_X_VISUAL_TYPE` (0x22).
#[verifier::external_body]
pub(crate) fn x_visual_type() -> (token: c_int)
    ensures
        token == GLX_X_VISUAL_TYPE,
{
    glx::X_VISUAL_TYPE as c_int
}

/// `glutin_glx_sys::glx::TRUE_COLOR`,
/// cast to an `int`: the token `GLX_TRUE_COLOR` (0x8002).
#[verifier::external_body]
pub(crate) fn true_color() -> (token: c_int)
    ensures
        token == GLX_TRUE_COLOR,
{
    glx::TRUE_COLOR as c_int
}

/// `glutin_glx_sys::glx::VISUAL_ID`,
/// cast to an `int`: the token `GLX_VISUAL_ID` (0x800B).
#[verifier::external_body]
pub(crate) fn visual_id() -> (token: c_int)
    ensures
        token == GLX_VISUAL_ID,
{
    glx::VISUAL_ID as c_int
}

/// `glutin_glx_sys::glx::DRAWABLE_TYPE`,
/// cast to an `int`: the token `GLX_DRAWABLE_TYPE` (0x8010).
#[verifier::external_body]
pub(crate) fn drawable_type() -> (token: c_int)
    ensures
        token == GLX_DRAWABLE_TYPE,
{
    glx::DRAWABLE_TYPE as c_int
}

/// `glutin_glx_sys::glx::WINDOW_BIT`,
/// cast to an `int`: the token `GLX_WINDOW_BIT` (0x1).
#[verifier::external_body]
pub(crate) fn window_bit() -> (token: c_int)
    ensures
        token == GLX_WINDOW_BIT,
{
    glx::WINDOW_BIT as c_int
}

/// `glutin_glx_sys::glx::RENDER_TYPE`,
/// cast to an `int`: the token `GLX_RENDER_TYPE` (0x8011).
#[verifier::external_body]
pub(crate) fn render_type() -> (token: c_int)
    ensures
        token == GLX_RENDER_TYPE,
{
    glx::RENDER_TYPE as c_int
}

/// `glutin_glx_sys::glx::RGBA_BIT`,
/// cast to an `int`: the token `GLX_RGBA_BIT` (0x1).
#[verifier::external_body]
pub(crate) fn rgba_bit() -> (token: c_int)
    ensures
        token == GLX_RGBA_BIT,
{
    glx::RGBA_BIT as c_int
}

/// `glutin_glx_sys::glx_extra::RGBA_FLOAT_BIT_ARB`,
/// cast to an `int`: the token `GLX_RGBA_FLOAT_BIT_ARB` (0x4).
#[verifier::external_body]
pub(crate) fn rgba_float_bit_arb() -> (token: c_int)
    ensures
        token == GLX_RGBA_FLOAT_BIT_ARB,
{
    glx_extra::RGBA_FLOAT_BIT_ARB as c_int
}

/// `glutin_glx_sys::glx::RED_SIZE`,
/// cast to an `int`: the token `GLX_RED_SIZE` (8).
#[verifier::external_body]
pub(crate) fn red_size() -> (token: c_int)
    ensures
        token == GLX_RED_SIZE,
{
    glx::RED_SIZE as c_int
}

/// `glutin_glx_sys::glx::GREEN_SIZE`,
/// cast to an `int`: the token `GLX_GREEN_SIZE` (9).
#[verifier::external_body]
pub(crate) fn green_size() -> (token: c_int)
    ensures
        token == GLX_GREEN_SIZE,
{
    glx::GREEN_SIZE as c_int
}

/// `glutin_glx_sys::glx::BLUE_SIZE`,
/// cast to an `int`: the token `GLX_BLUE_SIZE` (10).
#[verifier::external_body]
pub(crate) fn blue_size() -> (token: c_int)
    ensures
        token == GLX_BLUE_SIZE,
{
    glx::BLUE_SIZE as c_int
}

/// `glutin_glx_sys::glx::ALPHA_SIZE`,
/// cast to an `int`: the token `GLX_ALPHA_SIZE` (11).
#[verifier::external_body]
pub(crate) fn alpha_size() -> (token: c_int)
    ensures
        token == GLX_ALPHA_SIZE,
{
    glx::ALPHA_SIZE as c_int
}

/// `glutin_glx_sys::glx::DEPTH_SIZE`,
/// cast to an `int`: the token `GLX_DEPTH_SIZE` (12).
#[verifier::external_body]
pub(crate) fn depth_size() -> (token: c_int)
    ensures
        token == GLX_DEPTH_SIZE,
{
    glx::DEPTH_SIZE as c_int
}

/// `glutin_glx_sys::glx::STENCIL_SIZE`,
/// cast to an `int`: the token `GLX_STENCIL_SIZE` (13).
#[verifier::external_body]
pub(crate) fn stencil_size() -> (token: c_int)
    ensures
        token == GLX_STENCIL_SIZE,
{
    glx::STENCIL_SIZE as c_int
}

/// `glutin_glx_sys::glx::DOUBLEBUFFER`,
/// cast to an `int`: the token `GLX_DOUBLEBUFFER` (5).
#[verifier::external_body]
pub(crate) fn doublebuffer() -> (token: c_int)
    ensures
        token == GLX_DOUBLEBUFFER,
{
    glx::DOUBLEBUFFER as c_int
}

/// `glutin_glx_sys::glx_extra::SAMPLE_BUFFERS_ARB`,
/// cast to an `int`: the token `GLX_SAMPLE_BUFFERS_ARB` (100000).
#[verifier::external_body]
pub(crate) fn sample_buffers_arb() -> (token: c_int)
    ensures
        token == GLX_SAMPLE_BUFFERS_ARB,
{
    glx_extra::SAMPLE_BUFFERS_ARB as c_int
}

/// `glutin_glx_sys::glx_extra::SAMPLES_ARB`,
/// cast to an `int`: the token `GLX_SAMPLES_ARB` (100001).
#[verifier::external_body]
pub(crate) fn samples_arb() -> (token: c_int)
    ensures
        token == GLX_SAMPLES_ARB,
{
    glx_extra::SAMPLES_ARB as c_int
}

/// `glutin_glx_sys::glx::SAMPLE_BUFFERS`,
/// cast to an `int`: the token `GLX_SAMPLE_BUFFERS` (100000).
#[verifier::external_body]
pub(crate) fn sample_buffers() -> (token: c_int)
    ensures
        token == GLX_SAMPLE_BUFFERS,
{
    glx::SAMPLE_BUFFERS as c_int
}

/// `glutin_glx_sys::glx::SAMPLES`,
/// cast to an `int`: the token `GLX_SAMPLES` (100001).
#[verifier::external_body]
pub(crate) fn samples() -> (token: c_int)
    ensures
        token == GLX_SAMPLES,
{
    glx::SAMPLES as c_int
}

/// `glutin_glx_sys::glx::STEREO`,
/// cast to an `int`: the token `GLX_STEREO` (6).
#[verifier::external_body]
pub(crate) fn stereo() -> (token: c_int)
    ensures
        token == GLX_STEREO,
{
    glx::STEREO as c_int
}

/// `glutin_glx_sys::glx_extra::FRAMEBUFFER_SRGB_CAPABLE_ARB`,
/// cast to an `int`: the token `GLX_FRAMEBUFFER_SRGB_CAPABLE_ARB` (0x20B2).
#[verifier::external_body]
pub(crate) fn framebuffer_srgb_capable_arb() -> (token: c_int)
    ensures
        token == GLX_FRAMEBUFFER_SRGB_CAPABLE_ARB,
{
    glx_extra::FRAMEBUFFER_SRGB_CAPABLE_ARB as c_int
}

/// `glutin_glx_sys::glx_extra::FRAMEBUFFER_SRGB_CAPABLE_EXT`,
/// cast to an `int`: the token `GLX_FRAMEBUFFER_SRGB_CAPABLE_EXT` (0x20B2).
#[verifier::external_body]
pub(crate) fn framebuffer_srgb_capable_ext() -> (token: c_int)
    ensures
        token == GLX_FRAMEBUFFER_SRGB_CAPABLE_EXT,
{
    glx_extra::FRAMEBUFFER_SRGB_CAPABLE_EXT as c_int
}

/// `glutin_glx_sys::glx_extra::CONTEXT_RELEASE_BEHAVIOR_ARB`,
/// cast to an `int`: the token `GLX_CONTEXT_RELEASE_BEHAVIOR_ARB` (0x2097).
#[verifier::external_body]
pub(crate) fn context_release_behavior_arb() -> (token: c_int)
    ensures
        token == GLX_CONTEXT_RELEASE_BEHAVIOR_ARB,
{
    glx_extra::CONTEXT_RELEASE_BEHAVIOR_ARB as c_int
}

/// `glutin_glx_sys::glx_extra::CONTEXT_RELEASE_BEHAVIOR_NONE_ARB`,
/// cast to an `int`: the token `GLX_CONTEXT_RELEASE_BEHAVIOR_NONE_ARB` (0).
#[verifier::external_body]
pub(crate) fn context_release_behavior_none_arb() -> (token: c_int)
    ensures
        token == GLX_CONTEXT_RELEASE_BEHAVIOR_NONE_ARB,
{
    glx_extra::CONTEXT_RELEASE_BEHAVIOR_NONE_ARB as c_int
}

/// `glutin_glx_sys::glx::CONFIG_CAVEAT`,
/// cast to an `int`: the token `GLX_CONFIG_CAVEAT` (0x20).
#[verifier::external_body]
pub(crate) fn config_caveat() -> (token: c_int)
    ensures
        token == GLX_CONFIG_CAVEAT,
{
    glx::CONFIG_CAVEAT as c_int
}

/// `glutin_glx_sys::glx::SLOW_CONFIG`,
/// cast to an `int`: the token `GLX_SLOW_CONFIG` (0x8001).
#[verifier::external_body]
pub(crate) fn slow_config() -> (token: c_int)
    ensures
        token == GLX_SLOW_CONFIG,
{
    glx::SLOW_CONFIG as c_int
}

/// `glutin_glx_sys::glx::DONT_CARE`, cast to an `int`: all bits set, the token `GLX_DONT_CARE`
/// (`-1` as a signed number).
#[verifier::external_body]
pub(crate) fn dont_care() -> (token: c_int)
    ensures
        token == GLX_DONT_CARE,
{
    glx::DONT_CARE as c_int
}

/// `glutin_glx_sys::glx_extra::CONTEXT_MAJOR_VERSION_ARB`,
/// cast to an `int`: the token `GLX_CONTEXT_MAJOR_VERSION_ARB` (0x2091).
#[verifier::external_body]
pub(crate) fn context_major_version_arb() -> (token: c_int)
    ensures
        token == GLX_CONTEXT_MAJOR_VERSION_ARB,
{
    glx_extra::CONTEXT_MAJOR_VERSION_ARB as c_int
}

/// `glutin_glx_sys::glx_extra::CONTEXT_MINOR_VERSION_ARB`,
/// cast to an `int`: the token `GLX_CONTEXT_MINOR_VERSION_ARB` (0x2092).
#[verifier::external_body]
pub(crate) fn context_minor_version_arb() -> (token: c_int)
    ensures
        token == GLX_CONTEXT_MINOR_VERSION_ARB,
{
    glx_extra::CONTEXT_MINOR_VERSION_ARB as c_int
}

/// `glutin_glx_sys::glx_extra::CONTEXT_PROFILE_MASK_ARB`,
/// cast to an `int`: the token `GLX_CONTEXT_PROFILE_MASK_ARB` (0x9126).
#[verifier::external_body]
pub(crate) fn context_profile_mask_arb() -> (token: c_int)
    ensures
        token == GLX_CONTEXT_PROFILE_MASK_ARB,
{
    glx_extra::CONTEXT_PROFILE_MASK_ARB as c_int
}

/// `glutin_glx_sys::glx_extra::CONTEXT_CORE_PROFILE_BIT_ARB`,
/// cast to an `int`: the token `GLX_CONTEXT_CORE_PROFILE_BIT_ARB` (0x1).
#[verifier::external_body]
pub(crate) fn context_core_profile_bit_arb() -> (token: c_int)
    ensures
        token == GLX_CONTEXT_CORE_PROFILE_BIT_ARB,
{
    glx_extra::CONTEXT_CORE_PROFILE_BIT_ARB as c_int
}

/// `glutin_glx_sys::glx_extra::CONTEXT_COMPATIBILITY_PROFILE_BIT_ARB`,
/// cast to an `int`: the token `GLX_CONTEXT_COMPATIBILITY_PROFILE_BIT_ARB` (0x2).
#[verifier::external_body]
pub(crate) fn context_compatibility_profile_bit_arb() -> (token: c_int)
    ensures
        token == GLX_CONTEXT_COMPATIBILITY_PROFILE_BIT_ARB,
{
    glx_extra::CONTEXT_COMPATIBILITY_PROFILE_BIT_ARB as c_int
}

/// `glutin_glx_sys::glx_extra::CONTEXT_RESET_NOTIFICATION_STRATEGY_ARB`,
/// cast to an `int`: the token `GLX_CONTEXT_RESET_NOTIFICATION_STRATEGY_ARB` (0x8256).
#[verifier::external_body]
pub(crate) fn context_reset_notification_strategy_arb() -> (token: c_int)
    ensures
        token == GLX_CONTEXT_RESET_NOTIFICATION_STRATEGY_ARB,
{
    glx_extra::CONTEXT_RESET_NOTIFICATION_STRATEGY_ARB as c_int
}

/// `glutin_glx_sys::glx_extra::NO_RESET_NOTIFICATION_ARB`,
/// cast to an `int`: the token `GLX_NO_RESET_NOTIFICATION_ARB` (0x8261).
#[verifier::external_body]
pub(crate) fn no_reset_notification_arb() -> (token: c_int)
    ensures
        token == GLX_NO_RESET_NOTIFICATION_ARB,
{
    glx_extra::NO_RESET_NOTIFICATION_ARB as c_int
}

/// `glutin_glx_sys::glx_extra::LOSE_CONTEXT_ON_RESET_ARB`,
/// cast to an `int`: the token `GLX_LOSE_CONTEXT_ON_RESET_ARB` (0x8252).
#[verifier::external_body]
pub(crate) fn lose_context_on_reset_arb() -> (token: c_int)
    ensures
        token == GLX_LOSE_CONTEXT_ON_RESET_ARB,
{
    glx_extra::LOSE_CONTEXT_ON_RESET_ARB as c_int
}

/// `glutin_glx_sys::glx_extra::CONTEXT_FLAGS_ARB`,
/// cast to an `int`: the token `GLX_CONTEXT_FLAGS_ARB` (0x2094).
#[verifier::external_body]
pub(crate) fn context_flags_arb() -> (token: c_int)
    ensures
        token == GLX_CONTEXT_FLAGS_ARB,
{
    glx_extra::CONTEXT_FLAGS_ARB as c_int
}

/// `glutin_glx_sys::glx_extra::CONTEXT_DEBUG_BIT_ARB`,
/// cast to an `int`: the token `GLX_CONTEXT_DEBUG_BIT_ARB` (0x1).
#[verifier::external_body]
pub(crate) fn context_debug_bit_arb() -> (token: c_int)
    ensures
        token == GLX_CONTEXT_DEBUG_BIT_ARB,
{
    glx_extra::CONTEXT_DEBUG_BIT_ARB as c_int
}

/// `glutin_glx_sys::glx_extra::CONTEXT_ROBUST_ACCESS_BIT_ARB`,
/// cast to an `int`: the token `GLX_CONTEXT_ROBUST_ACCESS_BIT_ARB` (0x4).
#[verifier::external_body]
pub(crate) fn context_robust_access_bit_arb() -> (token: c_int)
    ensures
        token == GLX_CONTEXT_ROBUST_ACCESS_BIT_ARB,
{
    glx_extra::CONTEXT_ROBUST_ACCESS_BIT_ARB as c_int
}

} // verus!
