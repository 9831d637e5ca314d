//! Shader compilation and program linking against a native graphics driver,
//! as a verified protocol: the library decides which driver call comes next and
//! what its reply means; the caller performs the calls.
//!
//! A session begins with [`shader::Shader::from_source`] or
//! [`program::Program::from_shaders`]. Its owner makes the call that
//! `request` names, hands the driver's reply to `advance`, and goes on until
//! `advance` ends the session with a shader, a program, or the driver's
//! diagnostic as text. The value that a session ends with owns its handle;
//! `release` gives it up as the one call that frees the object.
//!
//! - [`driver`]: the calls, the replies, and what a run of a session is.
//! - [`source`]: source text that holds no zero byte.
//! - [`text`]: the log buffer and the text read from it.
//! - [`shader`], [`program`]: the two sessions and the values they end with.
//! - [`ledger`]: what a run leaves allocated.

pub mod driver;
pub mod ledger;
pub mod program;
pub mod shader;
pub mod source;
pub mod text;
