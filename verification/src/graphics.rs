//! Shaders, shader programs and what they share with the driver.
//!
//! - [`command`]: the calls for the driver and its answers.
//! - [`utility`]: the enumerants of the API and helpers around single calls.
//! - [`shader`]: one linked program with its uniforms, and how it is built.
//! - [`shader_program`]: a shader with its vertex array object and buffers.
//! - [`ledger`]: a model of the objects that live in the driver.
//! - [`name_map`]: the map by name that uniforms and buffers are kept in.

pub mod command;
pub mod ledger;
pub mod name_map;
pub mod shader;
pub mod shader_program;
pub mod utility;
