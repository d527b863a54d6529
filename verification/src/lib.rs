//! Decoder for a length-prefixed, big-endian binary wire protocol.
//!
//! A byte buffer is decoded into a typed request frame: a declared size, a
//! common header (api key, api version, correlation id, client id) and an
//! api-specific body, or a precise decode error. Decoding never panics and
//! never reads past the buffer; every decoder is specified against a
//! mathematical model of the wire format and verified.

pub mod primitives;
pub mod requests;
pub mod responses;
