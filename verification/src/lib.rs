//! Cursor resources of an X11 connection: which requests to send, in which
//! order, and what to release when one of them fails.
//!
//! The library never talks to the server. Every operation is a small state
//! machine: it names the next [`request::Request`], the caller performs it on
//! the connection and hands the outcome back to the operation's `step`.
//!
//! - [`format`] picks the ARGB32 picture format out of those the server has.
//! - [`builder`] builds a cursor from pixels and cleans up after itself.
//! - [`lookup`] resolves a named icon through the cursor theme, or builds the
//!   invisible cursor where there is no icon.
//! - [`cache`] remembers what each selector was resolved to.
//! - [`update`] puts a cursor on a window.
//! - [`set_cursor`] ties the three together for system cursors.
//! - [`custom`] counts the references to cursors made from an application's
//!   image.
//! - [`connection`] holds what all of this needs to know of a connection.

pub mod builder;
pub mod cache;
pub mod connection;
pub mod custom;
pub mod format;
pub mod icon;
pub mod lookup;
pub mod request;
pub mod set_cursor;
pub mod update;
