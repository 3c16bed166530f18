//! A minimal static file server's core: mapping an untrusted request
//! path onto a target under a fixed base directory, and turning what
//! the filesystem says about that target into an HTTP response
//! descriptor (status, content type, body).
//!
//! The transport (accepting connections, framing HTTP) and the
//! filesystem probes themselves live outside this crate; everything
//! here is a pure function of the request and of the probes' answers.

pub mod mime;
pub mod paths;
pub mod resolver;
pub mod response;
