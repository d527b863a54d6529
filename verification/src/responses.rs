//! Response body types.
//!
//! A response encoder is a symmetric sibling of the request decoder and out
//! of scope here; only the placeholder body for unsupported requests lives in
//! this module.

use vstd::prelude::*;

use crate::primitives::{Cursor, DecodeError, FromByteWithVersion};

verus! {

/// The body sent back for a request this broker does not support: it carries
/// no fields at any version.
#[derive(Debug, PartialEq, Eq)]
pub struct BodyUnsupportedResponse {}

/// The mathematical model of a decoded unsupported-request body.
pub struct BodyUnsupportedResponseV {}

impl DeepView for BodyUnsupportedResponse {
    type V = BodyUnsupportedResponseV;

    open spec fn deep_view(&self) -> BodyUnsupportedResponseV {
        BodyUnsupportedResponseV {  }
    }
}

impl FromByteWithVersion for BodyUnsupportedResponse {
    /// What decoding an unsupported-request body yields: nothing is consumed,
    /// at every version.
    open spec fn wire_with_version(b: Seq<u8>, pos: int, version: i16) -> Result<
        (BodyUnsupportedResponseV, int),
        DecodeError,
    > {
        Ok((BodyUnsupportedResponseV {  }, pos))
    }

    proof fn wire_with_version_monotonic(b: Seq<u8>, pos: int, version: i16) {
    }

    fn decode_with_version(c: &mut Cursor<'_>, version: i16) -> (r: Result<Self, DecodeError>) {
        Ok(BodyUnsupportedResponse {  })
    }
}

} // verus!
