//! A WebAssembly-hosted detective step evaluator.
//!
//! The host hands the module a serialized request envelope describing one
//! detective rule (a pattern/condition check) and the payload to test; the
//! module decodes it, validates it, runs the matching engine, and hands back a
//! serialized response envelope carrying a pass/fail verdict and a message.
//!
//! Layout:
//! - [`envelope`]: the typed request/response envelopes and their models.
//! - [`validate`]: structural validation of a decoded request.
//! - [`adapter`]: projection of a valid request into the matching engine's
//!   argument shape.
//! - [`codec`]: the wire codec for the envelopes.
//! - [`entry`]: the evaluation pipeline run once per invocation, up to and
//!   back from the matching engine, which the embedding runs.
//! - [`bridge`]: a handle-based owner model of the buffer exchange with the
//!   host.

pub mod adapter;
pub mod bridge;
pub mod codec;
pub mod entry;
pub mod envelope;
pub mod validate;
