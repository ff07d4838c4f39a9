//! A shader program manager for an OpenGL renderer.
//!
//! The library owns the bookkeeping of GPU objects: it decides which driver
//! calls are made, in which order, and what becomes of their answers. It never
//! talks to the driver itself. Every operation hands back the calls to make as
//! plain values of [`graphics::command::GlCall`]; whoever holds the context
//! performs them and returns the answers as [`graphics::command::GlReply`].
//!
//! Nor does it log. What is worth a log line comes back as a value, with the
//! level of [`utility::LogLevel`] that it is logged at.

pub mod graphics;
pub mod utility;
