//! A command invocation bridge: a backend exposes named, typed operations to a
//! frontend. A registry of commands is built once and immutable afterwards; a
//! dispatcher resolves each invocation request, validates its arguments,
//! executes the bound handler and always produces exactly one response; a
//! runtime state machine owns the serve loop's lifecycle from startup through
//! shutdown.

pub mod decimal;
pub mod dispatch;
pub mod error;
pub mod registry;
pub mod runtime;
pub mod value;
