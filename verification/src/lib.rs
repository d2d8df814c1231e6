//! OpenGL contexts on X11, by way of GLX.
//!
//! The library decides what is asked of libGL and of the X server, in which order,
//! and what to make of the replies; it calls neither itself. Each operation is a
//! [`protocol::Machine`]: it hands out one [`protocol::Call`] after the other and is
//! told the [`protocol::Reply`] to each, until it has an answer.
//!
//! - [`Glx::new`] looks for libGL.
//! - [`Context::new`] chooses a framebuffer configuration of a screen and makes the
//!   prototype of a context.
//! - [`ContextPrototype::finish`] makes the context, once there is a window.
//! - The methods of [`Context`] make it current, look up its functions, exchange its
//!   buffers and destroy it.

pub mod attribute_list;
pub mod context;
pub mod creation;
pub mod descriptor;
pub mod destruction;
pub mod extensions;
pub mod fbconfig;
pub mod fidelity;
pub mod finishing;
pub mod library;
pub mod opening;
pub mod progress;
pub mod protocol;
pub mod tokens;
pub mod types;

pub use context::Context;
pub use library::Glx;
pub use opening::ContextPrototype;
