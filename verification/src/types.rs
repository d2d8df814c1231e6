//! What a caller asks for, what it gets, and how it fails.

use vstd::prelude::*;

verus! {

/// The OpenGL family of an API request.
#[derive(Clone, Copy, PartialEq, Eq, Debug, Structural)]
pub enum Api {
    OpenGl,
    OpenGlEs,
    WebGl,
}

/// The profile of a context.
#[derive(Clone, Copy, PartialEq, Eq, Debug, Structural)]
pub enum GlProfile {
    /// Every feature, deprecated ones among them.
    Compatibility,
    /// The features that are not deprecated.
    Core,
}

/// The API and version that a caller asks for.
#[derive(Clone, Copy, PartialEq, Eq, Debug)]
pub enum GlRequest {
    /// The latest version of OpenGL that the system offers.
    Latest,
    /// One version of one API.
    Specific(Api, (u8, u8)),
    /// A version of OpenGL if the system has OpenGL, else one of OpenGL ES.
    GlThenGles { opengl_version: (u8, u8), opengles_version: (u8, u8) },
}

/// How tolerant of errors a context is to be.
#[derive(Clone, Copy, PartialEq, Eq, Debug, Structural)]
pub enum Robustness {
    NotRobust,
    NoError,
    RobustNoResetNotification,
    TryRobustNoResetNotification,
    RobustLoseContextOnReset,
    TryRobustLoseContextOnReset,
}

/// What happens when the current context changes.
#[derive(Clone, Copy, PartialEq, Eq, Debug, Structural)]
pub enum ReleaseBehavior {
    /// Nothing: most notably, no flush.
    Nothing,
    /// The context that is released is flushed.
    Flush,
}

/// What a framebuffer configuration must offer.
#[derive(Clone, Copy, PartialEq, Eq, Debug)]
pub struct PixelFormatRequirements {
    pub hardware_accelerated: Option<bool>,
    pub color_bits: Option<u8>,
    pub float_color_buffer: bool,
    pub alpha_bits: Option<u8>,
    pub depth_bits: Option<u8>,
    pub stencil_bits: Option<u8>,
    pub double_buffer: Option<bool>,
    pub multisampling: Option<u16>,
    pub stereoscopy: bool,
    pub srgb: bool,
    pub release_behavior: ReleaseBehavior,
    pub x11_visual_xid: Option<u64>,
}

/// What a framebuffer configuration turned out to offer.
#[derive(Clone, Copy, PartialEq, Eq, Debug)]
pub struct PixelFormat {
    pub hardware_accelerated: bool,
    pub color_bits: u8,
    pub alpha_bits: u8,
    pub depth_bits: u8,
    pub stencil_bits: u8,
    pub stereoscopy: bool,
    pub double_buffer: bool,
    pub multisampling: Option<u16>,
    pub srgb: bool,
}

/// What a context must offer. `S` is how a context to share with is named.
#[derive(PartialEq, Eq, Debug)]
pub struct GlAttributes<S> {
    pub sharing: Option<S>,
    pub version: GlRequest,
    pub profile: Option<GlProfile>,
    pub debug: bool,
    pub robustness: Robustness,
    pub vsync: bool,
}

/// The description of an X visual, field by field as Xlib's `XVisualInfo` has it.
/// `visual` is the address of the visual itself.
#[derive(Clone, Copy, PartialEq, Eq, Debug)]
pub struct VisualInfo {
    pub visual: usize,
    pub visualid: u64,
    pub screen: i32,
    pub depth: i32,
    pub class: i32,
    pub red_mask: u64,
    pub green_mask: u64,
    pub blue_mask: u64,
    pub colormap_size: i32,
    pub bits_per_rgb: i32,
}

/// Why no context could be made. `S` is the text of a message; contracts speak of
/// it as a sequence of characters.
#[derive(PartialEq, Eq, Debug)]
pub enum CreationError<S = String> {
    /// libGL or the X server refused; the message says what.
    OsError(S),
    /// The robustness that was asked for cannot be had.
    RobustnessNotSupported,
    /// No framebuffer configuration meets the requirements.
    NoAvailablePixelFormat,
}

impl CreationError {
    /// The same error, with its message as a sequence of characters.
    pub open spec fn model(self) -> CreationError<Seq<char>> {
        match self {
            CreationError::OsError(message) => CreationError::OsError(message@),
            CreationError::RobustnessNotSupported => CreationError::RobustnessNotSupported,
            CreationError::NoAvailablePixelFormat => CreationError::NoAvailablePixelFormat,
        }
    }
}

/// Why an operation on a context failed. `S` is as for [`CreationError`].
#[derive(PartialEq, Eq, Debug)]
pub enum ContextError<S = String> {
    /// libGL or the X server refused; the message says what.
    OsError(S),
}

impl ContextError {
    /// The same error, with its message as a sequence of characters.
    pub open spec fn model(self) -> ContextError<Seq<char>> {
        match self {
            ContextError::OsError(message) => ContextError::OsError(message@),
        }
    }
}

/// An error of the making of a context and its model are of the same kind, with the same
/// message.
pub proof fn law_creation_error_keeps_its_message(error: CreationError)
    ensures
        error is RobustnessNotSupported <==> error.model() is RobustnessNotSupported,
        error is NoAvailablePixelFormat <==> error.model() is NoAvailablePixelFormat,
        error is OsError <==> error.model() is OsError,
        error is OsError ==> error.model()->OsError_0 == error->OsError_0@,
{
}

/// An error of an operation on a context and its model have the same message.
pub proof fn law_context_error_keeps_its_message(error: ContextError)
    ensures
        error.model()->OsError_0 == error->OsError_0@,
{
}

} // verus!
