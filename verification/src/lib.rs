//! Text extraction from a clipboard image through a remote vision model.
//!
//! The crate holds the image-to-request pipeline: a raw pixel buffer is
//! validated, serialised as PNG and wrapped into a Base64 data URI, embedded in
//! a multimodal chat request, and the endpoint's answer is classified into the
//! extracted text or one named failure. Every function carries a contract that
//! Verus proves; the few calls into other crates are isolated behind small
//! functions whose contracts are taken on trust and documented as such.
//!
//! - [`pixel`]: the pixel buffer and its shape check.
//! - [`payload`]: Base64 as mathematics, with the proof that it can be undone.
//! - [`encoder`]: from a pixel buffer to a PNG data URI.
//! - [`request`]: the chat request and its document on the wire.
//! - [`json`]: JSON documents as plain values.
//! - [`response`]: the shape of a response and the order of the error channels.
//! - [`orchestrator`]: one invocation as a state machine.
//! - [`config`]: the settings and their defaults.

pub mod config;
pub mod encoder;
pub mod json;
pub mod orchestrator;
pub mod payload;
pub mod pixel;
pub mod request;
pub mod response;
