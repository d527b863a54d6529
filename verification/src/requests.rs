//! Request body types and their versioned decoders.
//!
//! Each body type documents, per field, the version at which the field was
//! introduced; a field absent at the frame's version is defaulted without
//! consuming bytes. Both registered decoders accept every non-negative api
//! version and answer a negative one with `UnsupportedVersion`.

use vstd::prelude::*;

use crate::primitives::{
    decode_buffer, spec_decode_array, spec_decode_bool, Cursor, DecodeError, FromByte,
    FromByteWithVersion, NullableString,
};

verus! {

/// The body of an `ApiVersions` request: no fields at any supported version.
#[derive(Debug, PartialEq, Eq)]
pub struct BodyApiVersionRequest {}

/// The mathematical model of a decoded `ApiVersions` body.
pub struct BodyApiVersionRequestV {}

impl DeepView for BodyApiVersionRequest {
    type V = BodyApiVersionRequestV;

    open spec fn deep_view(&self) -> BodyApiVersionRequestV {
        BodyApiVersionRequestV {  }
    }
}

impl FromByteWithVersion for BodyApiVersionRequest {
    /// What decoding an `ApiVersions` body yields: nothing is consumed at any
    /// non-negative version; a negative version is outside the registered
    /// range.
    open spec fn wire_with_version(b: Seq<u8>, pos: int, version: i16) -> Result<
        (BodyApiVersionRequestV, int),
        DecodeError,
    > {
        if version < 0 {
            Err(DecodeError::UnsupportedVersion)
        } else {
            Ok((BodyApiVersionRequestV {  }, pos))
        }
    }

    proof fn wire_with_version_monotonic(b: Seq<u8>, pos: int, version: i16) {
    }

    fn decode_with_version(c: &mut Cursor<'_>, version: i16) -> (r: Result<Self, DecodeError>) {
        if version < 0 {
            Err(DecodeError::UnsupportedVersion)
        } else {
            Ok(BodyApiVersionRequest {  })
        }
    }
}

/// The body of a `Metadata` request.
#[derive(Debug, PartialEq, Eq)]
pub struct BodyMetadataRequest {
    /// The topics asked about, in wire order. Present at every version.
    pub topics: Vec<NullableString>,
    /// Present on the wire only above version 3; at lower versions it is
    /// absent and defaults to `false`.
    pub allow_auto_topic_creation: bool,
}

/// The mathematical model of a decoded `Metadata` body.
pub struct BodyMetadataRequestV {
    pub topics: Seq<Option<Seq<char>>>,
    pub allow_auto_topic_creation: bool,
}

impl DeepView for BodyMetadataRequest {
    type V = BodyMetadataRequestV;

    open spec fn deep_view(&self) -> BodyMetadataRequestV {
        BodyMetadataRequestV {
            topics: self.topics.deep_view(),
            allow_auto_topic_creation: self.allow_auto_topic_creation,
        }
    }
}

impl FromByteWithVersion for BodyMetadataRequest {
    /// What decoding a `Metadata` body yields: the topics array at every
    /// non-negative version, then the auto-creation flag only above version
    /// 3; a negative version is outside the registered range.
    open spec fn wire_with_version(b: Seq<u8>, pos: int, version: i16) -> Result<
        (BodyMetadataRequestV, int),
        DecodeError,
    > {
        if version < 0 {
            Err(DecodeError::UnsupportedVersion)
        } else {
            match spec_decode_array::<NullableString>(b, pos) {
                Err(e) => Err(e),
                Ok((topics, p)) => if version <= 3 {
                    Ok((BodyMetadataRequestV { topics, allow_auto_topic_creation: false }, p))
                } else {
                    match spec_decode_bool(b, p) {
                        Err(e) => Err(e),
                        Ok((flag, p2)) => Ok(
                            (BodyMetadataRequestV { topics, allow_auto_topic_creation: flag }, p2),
                        ),
                    }
                },
            }
        }
    }

    proof fn wire_with_version_monotonic(b: Seq<u8>, pos: int, version: i16) {
        if version >= 0 {
            <Vec<NullableString> as FromByte>::wire_monotonic(b, pos);
        }
    }

    fn decode_with_version(c: &mut Cursor<'_>, version: i16) -> (r: Result<Self, DecodeError>) {
        if version < 0 {
            return Err(DecodeError::UnsupportedVersion);
        }
        let topics: Vec<NullableString> = decode_buffer(c)?;
        if version <= 3 {
            Ok(BodyMetadataRequest { topics, allow_auto_topic_creation: false })
        } else {
            let allow_auto_topic_creation: bool = decode_buffer(c)?;
            Ok(BodyMetadataRequest { topics, allow_auto_topic_creation })
        }
    }
}

} // verus!
