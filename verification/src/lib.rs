//! Session capture library: a verified state machine that drives one
//! authenticated browser session to a stable ready state and produces an
//! immutable capture record (url, title, page source, screenshot), together
//! with the encodings used to persist that record (slug naming, JSON,
//! base64).
//!
//! The browser driver itself is an external capability: the state machine in
//! [`session`] is stepped with the outcomes of driver operations and answers
//! with the next operation to perform, so every decision of a session run is
//! verified while the I/O stays outside.

pub mod auth;
pub mod codec;
pub mod page;
pub mod session;
pub mod slug;
pub mod text;
pub mod urls;
