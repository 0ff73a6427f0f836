//! Typed handling of Windows API error codes.
//!
//! The library carries an error code in [`WindowsError`], renders it for
//! diagnostics, and turns a reply of the host OS message-formatting facility
//! into a human-readable description. The foreign call itself cannot be made
//! from verified code; an embedding program performs it and hands the reply
//! (written count, buffer, secondary last-error value) to [`resolver`].
#![allow(unused_imports)]

pub mod decimal;
pub mod error;
pub mod resolver;

pub use error::WindowsError;
pub use resolver::resolve_message;
pub use resolver::format_message_ok;
pub use resolver::format_message_error;
