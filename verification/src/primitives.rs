//! Primitive value codecs, the common request header, and the top-level
//! request assembler.
//!
//! Every decoder reads from a [`Cursor`] over an immutable byte buffer and
//! advances it by the number of bytes consumed on success; on failure the
//! cursor position is unspecified and the caller must abandon the decode.
//! Each decoder's behaviour is pinned by a spec function over the raw bytes.

use vstd::prelude::*;
use vstd::slice::slice_index_get;

verus! {

/// The errors a decode can end in.
///
/// `BufferUnderflow`, `BadData`, `InvalidUtf8` and `FrameSizeMismatch` mean
/// the frame itself is malformed; `UnsupportedApiKey` and
/// `UnsupportedVersion` mean a well-formed frame asked for a request kind or
/// layout this decoder does not know.
#[derive(Debug, Clone, Copy, PartialEq, Eq)]
pub enum DecodeError {
    /// A fixed-width or length-prefixed field needs more bytes than remain.
    BufferUnderflow,
    /// The bytes consumed by header and body differ from the declared size.
    FrameSizeMismatch,
    /// A disallowed negative length prefix.
    BadData,
    /// A string payload is not valid UTF-8.
    InvalidUtf8,
    /// The header names an api key with no registered body decoder.
    UnsupportedApiKey,
    /// The api key is known, but the version is outside its registered range.
    UnsupportedVersion,
}

/// A position inside an immutable byte buffer.
pub struct Cursor<'a> {
    buf: &'a [u8],
    pos: usize,
}

impl<'a> Cursor<'a> {
    /// The whole underlying buffer.
    pub closed spec fn bytes(self) -> Seq<u8> {
        self.buf@
    }

    /// The current position, counted from the start of the buffer.
    pub closed spec fn position(self) -> int {
        self.pos as int
    }

    /// The position never runs past the end of the buffer.
    pub open spec fn wf(self) -> bool {
        0 <= self.position() <= self.bytes().len()
    }

    /// A cursor standing at the start of `buf`.
    pub fn new(buf: &'a [u8]) -> (c: Cursor<'a>)
        ensures
            c.wf(),
            c.bytes() == buf@,
            c.position() == 0,
    {
        Cursor { buf, pos: 0 }
    }

    /// The current position as a value.
    pub fn offset(&self) -> (n: usize)
        ensures
            n == self.position(),
    {
        self.pos
    }

    /// How many bytes remain to be read.
    pub fn remaining(&self) -> (n: usize)
        requires
            self.wf(),
        ensures
            n == self.bytes().len() - self.position(),
    {
        self.buf.len() - self.pos
    }

    /// Read one byte and advance past it.
    fn read_u8(&mut self) -> (r: Result<u8, DecodeError>)
        requires
            old(self).wf(),
        ensures
            final(self).wf(),
            final(self).bytes() == old(self).bytes(),
            match r {
                Ok(v) => old(self).position() + 1 <= old(self).bytes().len()
                    && v == old(self).bytes()[old(self).position()]
                    && final(self).position() == old(self).position() + 1,
                Err(e) => e == DecodeError::BufferUnderflow
                    && old(self).bytes().len() < old(self).position() + 1,
            },
    {
        if self.pos < self.buf.len() {
            let b: u8 = *slice_index_get(self.buf, self.pos);
            self.pos = self.pos + 1;
            Ok(b)
        } else {
            Err(DecodeError::BufferUnderflow)
        }
    }

    /// Read `n` bytes into an owned vector and advance past them.
    fn read_bytes(&mut self, n: usize) -> (r: Result<Vec<u8>, DecodeError>)
        requires
            old(self).wf(),
        ensures
            final(self).wf(),
            final(self).bytes() == old(self).bytes(),
            match r {
                Ok(v) => old(self).position() + n <= old(self).bytes().len()
                    && v@ == old(self).bytes().subrange(
                    old(self).position(),
                    old(self).position() + n,
                ) && final(self).position() == old(self).position() + n,
                Err(e) => e == DecodeError::BufferUnderflow
                    && old(self).bytes().len() < old(self).position() + n,
            },
    {
        if n > self.buf.len() - self.pos {
            return Err(DecodeError::BufferUnderflow);
        }
        let end: usize = self.pos + n;
        let mut v: Vec<u8> = Vec::new();
        let mut i: usize = 0;
        while i < n
            invariant
                old(self).wf(),
                self.buf == old(self).buf,
                i <= n,
                self.pos == old(self).pos + i,
                end == old(self).pos + n,
                end <= self.buf@.len(),
                v@ == self.buf@.subrange(old(self).pos as int, old(self).pos + i),
            decreases n - i,
        {
            let b: u8 = *slice_index_get(self.buf, self.pos);
            v.push(b);
            self.pos = self.pos + 1;
            i = i + 1;
            proof {
                assert(v@ =~= self.buf@.subrange(old(self).pos as int, old(self).pos + i));
            }
        }
        Ok(v)
    }
}

/// A string as the wire carries it: absent (length prefix `-1`), empty
/// (length prefix `0`), or present with a UTF-8 payload.
///
/// Null and empty are distinct protocol states; `Null` is never collapsed
/// into `Value` of an empty string.
#[derive(Debug, PartialEq, Eq)]
pub enum NullableString {
    Null,
    Value(String),
}

impl DeepView for NullableString {
    type V = Option<Seq<char>>;

    open spec fn deep_view(&self) -> Option<Seq<char>> {
        match self {
            NullableString::Null => None,
            NullableString::Value(s) => Some(s@),
        }
    }
}

impl NullableString {
    /// Whether this is the null wire state.
    pub fn is_null(&self) -> (r: bool)
        ensures
            r == (self.deep_view() is None),
    {
        match self {
            NullableString::Null => true,
            NullableString::Value(_) => false,
        }
    }
}

/// The unsigned value of two big-endian bytes.
pub open spec fn spec_be16(b0: u8, b1: u8) -> int {
    b0 * 0x100 + b1
}

/// The unsigned value of four big-endian bytes.
pub open spec fn spec_be32(b0: u8, b1: u8, b2: u8, b3: u8) -> int {
    b0 * 0x1000000 + b1 * 0x10000 + b2 * 0x100 + b3
}

/// An unsigned value reinterpreted as an 8-bit two's-complement integer.
pub open spec fn spec_signed8(u: int) -> i8 {
    (if u < 0x80 {
        u
    } else {
        u - 0x100
    }) as i8
}

/// An unsigned value reinterpreted as a 16-bit two's-complement integer.
pub open spec fn spec_signed16(u: int) -> i16 {
    (if u < 0x8000 {
        u
    } else {
        u - 0x10000
    }) as i16
}

/// An unsigned value reinterpreted as a 32-bit two's-complement integer.
pub open spec fn spec_signed32(u: int) -> i32 {
    (if u < 0x80000000 {
        u
    } else {
        u - 0x100000000
    }) as i32
}

/// What decoding an `int8` at `pos` yields: the byte as a two's-complement
/// integer, or `BufferUnderflow` if no byte remains.
pub open spec fn spec_decode_i8(b: Seq<u8>, pos: int) -> Result<(i8, int), DecodeError> {
    if pos + 1 <= b.len() {
        Ok((spec_signed8(b[pos] as int), pos + 1))
    } else {
        Err(DecodeError::BufferUnderflow)
    }
}

/// What decoding an `int16` at `pos` yields: two big-endian bytes as a
/// two's-complement integer, or `BufferUnderflow` if fewer than two remain.
pub open spec fn spec_decode_i16(b: Seq<u8>, pos: int) -> Result<(i16, int), DecodeError> {
    if pos + 2 <= b.len() {
        Ok((spec_signed16(spec_be16(b[pos], b[pos + 1])), pos + 2))
    } else {
        Err(DecodeError::BufferUnderflow)
    }
}

/// What decoding an `int32` at `pos` yields: four big-endian bytes as a
/// two's-complement integer, or `BufferUnderflow` if fewer than four remain.
pub open spec fn spec_decode_i32(b: Seq<u8>, pos: int) -> Result<(i32, int), DecodeError> {
    if pos + 4 <= b.len() {
        Ok((spec_signed32(spec_be32(b[pos], b[pos + 1], b[pos + 2], b[pos + 3])), pos + 4))
    } else {
        Err(DecodeError::BufferUnderflow)
    }
}

/// What decoding a boolean at `pos` yields: one byte, any nonzero byte being
/// `true`, or `BufferUnderflow` if no byte remains.
pub open spec fn spec_decode_bool(b: Seq<u8>, pos: int) -> Result<(bool, int), DecodeError> {
    if pos + 1 <= b.len() {
        Ok((b[pos] != 0, pos + 1))
    } else {
        Err(DecodeError::BufferUnderflow)
    }
}

/// What decoding a nullable string at `pos` yields: an `int16` length prefix,
/// then `-1` is the null state, `0` the empty state, a positive length that
/// many bytes of UTF-8 payload; a length below `-1` is `BadData`, a payload
/// running past the buffer is `BufferUnderflow`, and a payload that is not
/// valid UTF-8 is `InvalidUtf8`.
pub open spec fn spec_decode_string(b: Seq<u8>, pos: int) -> Result<
    (Option<Seq<char>>, int),
    DecodeError,
> {
    match spec_decode_i16(b, pos) {
        Err(e) => Err(e),
        Ok((len, p)) => if len == -1 {
            Ok((None, p))
        } else if len < -1 {
            Err(DecodeError::BadData)
        } else if p + len <= b.len() {
            let payload = b.subrange(p, p + len);
            if vstd::utf8::valid_utf8(payload) {
                Ok((Some(vstd::utf8::decode_utf8(payload)), p + len))
            } else {
                Err(DecodeError::InvalidUtf8)
            }
        } else {
            Err(DecodeError::BufferUnderflow)
        },
    }
}

/// Relies on `String::from_utf8`: it returns `Ok` exactly when the bytes are
/// a valid UTF-8 encoding, and the string's characters are then the decoding
/// of those bytes, as vstd's UTF-8 model states both.
#[verifier::external_body]
fn string_from_utf8(bytes: Vec<u8>) -> (r: Option<String>)
    ensures
        r is Some <==> vstd::utf8::valid_utf8(bytes@),
        r matches Some(s) ==> s@ == vstd::utf8::decode_utf8(bytes@),
{
    match String::from_utf8(bytes) {
        Ok(s) => Some(s),
        Err(_) => None,
    }
}

impl FromByte for NullableString {
    open spec fn wire(b: Seq<u8>, pos: int) -> Result<(Option<Seq<char>>, int), DecodeError> {
        spec_decode_string(b, pos)
    }

    proof fn wire_monotonic(b: Seq<u8>, pos: int) {
    }

    fn decode(c: &mut Cursor<'_>) -> (r: Result<Self, DecodeError>) {
        let len: i16 = i16::decode(c)?;
        if len == -1 {
            return Ok(NullableString::Null);
        }
        if len < -1 {
            return Err(DecodeError::BadData);
        }
        let payload: Vec<u8> = c.read_bytes(len as usize)?;
        match string_from_utf8(payload) {
            Some(s) => Ok(NullableString::Value(s)),
            None => Err(DecodeError::InvalidUtf8),
        }
    }
}

/// A value that can be decoded from the wire, with a fixed layout at every
/// api version.
///
/// `wire` is the mathematical model: it maps a buffer and a position to the
/// decoded value (as its deep view) and the position after it, or to the
/// error the bytes deserve. `decode` must realise exactly that model.
pub trait FromByte: DeepView + Sized {
    /// What decoding `Self` at `pos` in `b` yields.
    spec fn wire(b: Seq<u8>, pos: int) -> Result<(Self::V, int), DecodeError>;

    /// A successful decode consumes a non-negative number of bytes and never
    /// reads past the buffer.
    proof fn wire_monotonic(b: Seq<u8>, pos: int)
        requires
            0 <= pos <= b.len(),
        ensures
            Self::wire(b, pos) matches Ok((v, p)) ==> pos <= p <= b.len(),
    ;

    /// Decode one `Self` at the cursor, advancing past the bytes consumed.
    fn decode(c: &mut Cursor<'_>) -> (r: Result<Self, DecodeError>)
        requires
            old(c).wf(),
        ensures
            final(c).wf(),
            final(c).bytes() == old(c).bytes(),
            match r {
                Ok(v) => Self::wire(old(c).bytes(), old(c).position()) == Ok::<(Self::V, int),
                    DecodeError,
                >((v.deep_view(), final(c).position())),
                Err(e) => Self::wire(old(c).bytes(), old(c).position()) == Err::<(Self::V, int),
                    DecodeError,
                >(e),
            },
    ;
}

impl FromByte for i8 {
    open spec fn wire(b: Seq<u8>, pos: int) -> Result<(i8, int), DecodeError> {
        spec_decode_i8(b, pos)
    }

    proof fn wire_monotonic(b: Seq<u8>, pos: int) {
    }

    fn decode(c: &mut Cursor<'_>) -> (r: Result<Self, DecodeError>) {
        let b0: u8 = c.read_u8()?;
        if b0 < 0x80 {
            Ok(b0 as i8)
        } else {
            Ok((b0 as i16 - 0x100) as i8)
        }
    }
}

impl FromByte for i16 {
    open spec fn wire(b: Seq<u8>, pos: int) -> Result<(i16, int), DecodeError> {
        spec_decode_i16(b, pos)
    }

    proof fn wire_monotonic(b: Seq<u8>, pos: int) {
    }

    fn decode(c: &mut Cursor<'_>) -> (r: Result<Self, DecodeError>) {
        let b0: u8 = c.read_u8()?;
        let b1: u8 = c.read_u8()?;
        let u: u16 = (b0 as u16) * 0x100 + (b1 as u16);
        if u < 0x8000 {
            Ok(u as i16)
        } else {
            Ok((u as i32 - 0x10000) as i16)
        }
    }
}

impl FromByte for i32 {
    open spec fn wire(b: Seq<u8>, pos: int) -> Result<(i32, int), DecodeError> {
        spec_decode_i32(b, pos)
    }

    proof fn wire_monotonic(b: Seq<u8>, pos: int) {
    }

    fn decode(c: &mut Cursor<'_>) -> (r: Result<Self, DecodeError>) {
        let b0: u8 = c.read_u8()?;
        let b1: u8 = c.read_u8()?;
        let b2: u8 = c.read_u8()?;
        let b3: u8 = c.read_u8()?;
        let u: u32 = (b0 as u32) * 0x1000000 + (b1 as u32) * 0x10000 + (b2 as u32) * 0x100 + (
        b3 as u32);
        if u < 0x80000000 {
            Ok(u as i32)
        } else {
            Ok((u as i64 - 0x100000000) as i32)
        }
    }
}

impl FromByte for bool {
    open spec fn wire(b: Seq<u8>, pos: int) -> Result<(bool, int), DecodeError> {
        spec_decode_bool(b, pos)
    }

    proof fn wire_monotonic(b: Seq<u8>, pos: int) {
    }

    fn decode(c: &mut Cursor<'_>) -> (r: Result<Self, DecodeError>) {
        let b0: u8 = c.read_u8()?;
        Ok(b0 != 0)
    }
}

/// What decoding `count` consecutive elements at `pos` yields: each element
/// in order by `T`'s own decoder, the first element error ending the whole
/// array at once.
pub open spec fn spec_decode_elems<T: FromByte>(b: Seq<u8>, pos: int, count: int) -> Result<
    (Seq<T::V>, int),
    DecodeError,
>
    decreases count,
{
    if count <= 0 {
        Ok((Seq::empty(), pos))
    } else {
        match T::wire(b, pos) {
            Err(e) => Err(e),
            Ok((v, p)) => match spec_decode_elems::<T>(b, p, count - 1) {
                Err(e) => Err(e),
                Ok((vs, p2)) => Ok((seq![v] + vs, p2)),
            },
        }
    }
}

/// What decoding a length-prefixed array at `pos` yields: an `int32` count,
/// negative counts being `BadData`, then that many elements in order.
pub open spec fn spec_decode_array<T: FromByte>(b: Seq<u8>, pos: int) -> Result<
    (Seq<T::V>, int),
    DecodeError,
> {
    match spec_decode_i32(b, pos) {
        Err(e) => Err(e),
        Ok((count, p)) => if count < 0 {
            Err(DecodeError::BadData)
        } else {
            spec_decode_elems::<T>(b, p, count as int)
        },
    }
}

/// On success, decoding consecutive elements consumes a non-negative number
/// of bytes and never reads past the buffer.
pub proof fn lemma_decode_elems_monotonic<T: FromByte>(b: Seq<u8>, pos: int, count: int)
    requires
        0 <= pos <= b.len(),
    ensures
        spec_decode_elems::<T>(b, pos, count) matches Ok((vs, p)) ==> pos <= p <= b.len(),
    decreases count,
{
    if count > 0 {
        match T::wire(b, pos) {
            Ok((v, p)) => {
                T::wire_monotonic(b, pos);
                lemma_decode_elems_monotonic::<T>(b, p, count - 1);
            },
            Err(_) => {
            },
        }
    }
}

impl<T: FromByte> FromByte for Vec<T> {
    open spec fn wire(b: Seq<u8>, pos: int) -> Result<(Seq<T::V>, int), DecodeError> {
        spec_decode_array::<T>(b, pos)
    }

    proof fn wire_monotonic(b: Seq<u8>, pos: int) {
        match spec_decode_i32(b, pos) {
            Ok((count, p)) => {
                if count >= 0 {
                    lemma_decode_elems_monotonic::<T>(b, p, count as int);
                }
            },
            Err(_) => {
            },
        }
    }

    #[verifier::loop_isolation(false)]
    fn decode(c: &mut Cursor<'_>) -> (r: Result<Self, DecodeError>) {
        let count: i32 = i32::decode(c)?;
        if count < 0 {
            return Err(DecodeError::BadData);
        }
        let ghost b = c.bytes();
        let ghost p0 = c.position();
        let mut out: Vec<T> = Vec::new();
        let mut i: i32 = 0;
        while i < count
            invariant
                0 <= i <= count,
                c.wf(),
                c.bytes() == b,
                spec_decode_elems::<T>(b, p0, count as int) == (match spec_decode_elems::<T>(
                    b,
                    c.position(),
                    count - i,
                ) {
                    Err(e) => Err::<(Seq<T::V>, int), DecodeError>(e),
                    Ok((vs, p)) => Ok::<(Seq<T::V>, int), DecodeError>((out.deep_view() + vs, p)),
                }),
            decreases count - i,
        {
            let ghost pos_before = c.position();
            match T::decode(c) {
                Err(e) => {
                    proof {
                        assert(spec_decode_elems::<T>(b, pos_before, count - i) == Err::<
                            (Seq<T::V>, int),
                            DecodeError,
                        >(e));
                    }
                    return Err(e);
                },
                Ok(v) => {
                    let ghost old_out_view = out.deep_view();
                    out.push(v);
                    i = i + 1;
                    proof {
                        assert(out.deep_view() =~= old_out_view.push(v.deep_view()));
                        assert forall|vs: Seq<T::V>|
                            (old_out_view + (seq![v.deep_view()] + vs)) =~= (out.deep_view()
                                + vs) by {}
                    }
                },
            }
        }
        proof {
            assert(spec_decode_elems::<T>(b, c.position(), 0) == Ok::<(Seq<T::V>, int),
                DecodeError,
            >((Seq::empty(), c.position())));
            assert(out.deep_view() + Seq::<T::V>::empty() =~= out.deep_view());
        }
        Ok(out)
    }
}

/// The api keys with a registered body decoder.
#[derive(Debug, PartialEq, Eq)]
pub enum ApiKey {
    Metadata,
    ApiVersions,
}

/// The registry of body decoders, keyed by the wire value of the api key:
/// `3` names `Metadata` and `18` names `ApiVersions`; every other key is
/// unregistered.
pub open spec fn spec_api_key(k: int) -> Option<ApiKey> {
    if k == 3 {
        Some(ApiKey::Metadata)
    } else if k == 18 {
        Some(ApiKey::ApiVersions)
    } else {
        None
    }
}

impl ApiKey {
    /// Look a wire api key up in the registry.
    pub fn from_i16(k: i16) -> (r: Option<ApiKey>)
        ensures
            r == spec_api_key(k as int),
    {
        if k == 3 {
            Some(ApiKey::Metadata)
        } else if k == 18 {
            Some(ApiKey::ApiVersions)
        } else {
            None
        }
    }
}

/// The api versions this codec was written against.
#[derive(Debug, PartialEq, Eq)]
pub enum ApiVersion {
    Version0,
    Version1,
    Version2,
}

/// The protocol-common request header.
///
/// Its fields appear in this fixed order in the wire encoding; none is
/// optional at the header level.
#[derive(Debug, PartialEq, Eq)]
pub struct HeaderRequest {
    pub api_key: i16,
    pub api_version: i16,
    pub correlation_id: i32,
    pub client_id: NullableString,
}

/// The mathematical model of a decoded request header.
pub struct HeaderRequestV {
    pub api_key: i16,
    pub api_version: i16,
    pub correlation_id: i32,
    pub client_id: Option<Seq<char>>,
}

impl DeepView for HeaderRequest {
    type V = HeaderRequestV;

    open spec fn deep_view(&self) -> HeaderRequestV {
        HeaderRequestV {
            api_key: self.api_key,
            api_version: self.api_version,
            correlation_id: self.correlation_id,
            client_id: self.client_id.deep_view(),
        }
    }
}

impl FromByte for HeaderRequest {
    /// What decoding a header at `pos` yields: api key, api version,
    /// correlation id and client id, in that fixed order, each by its own
    /// decoder, the first failure ending the decode with its own error.
    open spec fn wire(b: Seq<u8>, pos: int) -> Result<(HeaderRequestV, int), DecodeError> {
        match spec_decode_i16(b, pos) {
            Err(e) => Err(e),
            Ok((api_key, p1)) => match spec_decode_i16(b, p1) {
                Err(e) => Err(e),
                Ok((api_version, p2)) => match spec_decode_i32(b, p2) {
                    Err(e) => Err(e),
                    Ok((correlation_id, p3)) => match spec_decode_string(b, p3) {
                        Err(e) => Err(e),
                        Ok((client_id, p4)) => Ok(
                            (HeaderRequestV { api_key, api_version, correlation_id, client_id }, p4),
                        ),
                    },
                },
            },
        }
    }

    proof fn wire_monotonic(b: Seq<u8>, pos: int) {
        match spec_decode_i16(b, pos) {
            Ok((api_key, p1)) => match spec_decode_i16(b, p1) {
                Ok((api_version, p2)) => match spec_decode_i32(b, p2) {
                    Ok((correlation_id, p3)) => {
                        NullableString::wire_monotonic(b, p3);
                    },
                    Err(_) => {
                    },
                },
                Err(_) => {
                },
            },
            Err(_) => {
            },
        }
    }

    fn decode(c: &mut Cursor<'_>) -> (r: Result<Self, DecodeError>) {
        let api_key: i16 = decode_buffer(c)?;
        let api_version: i16 = decode_buffer(c)?;
        let correlation_id: i32 = decode_buffer(c)?;
        let client_id: NullableString = decode_buffer(c)?;
        Ok(HeaderRequest { api_key, api_version, correlation_id, client_id })
    }
}

/// The protocol-common response header.
#[derive(Debug, PartialEq, Eq)]
pub struct HeaderResponse {
    pub correlation_id: i32,
}

/// A value that can be decoded from the wire under a layout selected by the
/// api version of the surrounding frame.
///
/// `wire_with_version` is the mathematical model, including which versions
/// the decoder is registered for; `decode_with_version` must realise exactly
/// that model.
pub trait FromByteWithVersion: DeepView + Sized {
    /// What decoding `Self` at `pos` in `b` under `version` yields.
    spec fn wire_with_version(b: Seq<u8>, pos: int, version: i16) -> Result<
        (Self::V, int),
        DecodeError,
    >;

    /// A successful decode consumes a non-negative number of bytes and never
    /// reads past the buffer.
    proof fn wire_with_version_monotonic(b: Seq<u8>, pos: int, version: i16)
        requires
            0 <= pos <= b.len(),
        ensures
            Self::wire_with_version(b, pos, version) matches Ok((v, p)) ==> pos <= p <= b.len(),
    ;

    /// Decode one `Self` at the cursor under the given api version.
    fn decode_with_version(c: &mut Cursor<'_>, version: i16) -> (r: Result<Self, DecodeError>)
        requires
            old(c).wf(),
        ensures
            final(c).wf(),
            final(c).bytes() == old(c).bytes(),
            match r {
                Ok(v) => Self::wire_with_version(old(c).bytes(), old(c).position(), version)
                    == Ok::<(Self::V, int), DecodeError>((v.deep_view(), final(c).position())),
                Err(e) => Self::wire_with_version(old(c).bytes(), old(c).position(), version)
                    == Err::<(Self::V, int), DecodeError>(e),
            },
    ;
}

/// Decode one `F` at the cursor under the given api version; the
/// registry-facing entry point of the versioned body decoders.
pub fn decode_buffer_with_version<F: FromByteWithVersion>(c: &mut Cursor<'_>, version: i16) -> (r:
    Result<F, DecodeError>)
    requires
        old(c).wf(),
    ensures
        final(c).wf(),
        final(c).bytes() == old(c).bytes(),
        match r {
            Ok(v) => F::wire_with_version(old(c).bytes(), old(c).position(), version) == Ok::<
                (F::V, int),
                DecodeError,
            >((v.deep_view(), final(c).position())),
            Err(e) => F::wire_with_version(old(c).bytes(), old(c).position(), version) == Err::<
                (F::V, int),
                DecodeError,
            >(e),
        },
{
    F::decode_with_version(c, version)
}

/// Decode one `F` at the cursor; the registry-facing entry point of the
/// primitive codec.
pub fn decode_buffer<F: FromByte>(c: &mut Cursor<'_>) -> (r: Result<F, DecodeError>)
    requires
        old(c).wf(),
    ensures
        final(c).wf(),
        final(c).bytes() == old(c).bytes(),
        match r {
            Ok(v) => F::wire(old(c).bytes(), old(c).position()) == Ok::<(F::V, int), DecodeError>(
                (v.deep_view(), final(c).position()),
            ),
            Err(e) => F::wire(old(c).bytes(), old(c).position()) == Err::<(F::V, int), DecodeError>(
                e,
            ),
        },
{
    F::decode(c)
}

/// The api-specific request body: a closed tagged variant over the known api
/// keys.
#[derive(Debug, PartialEq, Eq)]
pub enum BodyRequest {
    ApiVersions(crate::requests::BodyApiVersionRequest),
    Metadata(crate::requests::BodyMetadataRequest),
}

/// The mathematical model of a decoded request body.
pub enum BodyRequestV {
    ApiVersions(crate::requests::BodyApiVersionRequestV),
    Metadata(crate::requests::BodyMetadataRequestV),
}

impl DeepView for BodyRequest {
    type V = BodyRequestV;

    open spec fn deep_view(&self) -> BodyRequestV {
        match self {
            BodyRequest::ApiVersions(v) => BodyRequestV::ApiVersions(v.deep_view()),
            BodyRequest::Metadata(v) => BodyRequestV::Metadata(v.deep_view()),
        }
    }
}

/// One decoded request frame: the declared size, the common header, and the
/// api-specific body.
#[derive(Debug, PartialEq, Eq)]
pub struct DecodedRequest {
    pub size: i32,
    pub header: HeaderRequest,
    pub body: BodyRequest,
}

/// The mathematical model of a decoded request frame.
pub struct DecodedRequestV {
    pub size: i32,
    pub header: HeaderRequestV,
    pub body: BodyRequestV,
}

impl DeepView for DecodedRequest {
    type V = DecodedRequestV;

    open spec fn deep_view(&self) -> DecodedRequestV {
        DecodedRequestV {
            size: self.size,
            header: self.header.deep_view(),
            body: self.body.deep_view(),
        }
    }
}

/// What decoding the body for a registered api key at `pos` under `version`
/// yields: the key's own decoder, its result tagged with the key's variant.
pub open spec fn spec_decode_body(b: Seq<u8>, pos: int, key: ApiKey, version: i16) -> Result<
    (BodyRequestV, int),
    DecodeError,
> {
    match key {
        ApiKey::ApiVersions => match crate::requests::BodyApiVersionRequest::wire_with_version(
            b,
            pos,
            version,
        ) {
            Err(e) => Err(e),
            Ok((v, p)) => Ok((BodyRequestV::ApiVersions(v), p)),
        },
        ApiKey::Metadata => match crate::requests::BodyMetadataRequest::wire_with_version(
            b,
            pos,
            version,
        ) {
            Err(e) => Err(e),
            Ok((v, p)) => Ok((BodyRequestV::Metadata(v), p)),
        },
    }
}

/// What decoding a whole frame yields: the `int32` size, the header, the body
/// selected by the header's api key and version, and then the framing check:
/// the bytes consumed by header and body together must equal the declared
/// size, else the frame is `FrameSizeMismatch`. An api key outside the
/// registry is `UnsupportedApiKey`.
pub open spec fn spec_decode_request(b: Seq<u8>) -> Result<DecodedRequestV, DecodeError> {
    match spec_decode_i32(b, 0) {
        Err(e) => Err(e),
        Ok((size, p1)) => match HeaderRequest::wire(b, p1) {
            Err(e) => Err(e),
            Ok((header, p2)) => match spec_api_key(header.api_key as int) {
                None => Err(DecodeError::UnsupportedApiKey),
                Some(key) => match spec_decode_body(b, p2, key, header.api_version) {
                    Err(e) => Err(e),
                    Ok((body, p3)) => if p3 - 4 == size {
                        Ok(DecodedRequestV { size, header, body })
                    } else {
                        Err(DecodeError::FrameSizeMismatch)
                    },
                },
            },
        },
    }
}

impl DecodedRequest {
    /// Decode one request frame from the start of `buf`.
    ///
    /// The result is exactly what `spec_decode_request` says the bytes mean:
    /// the assembled frame on a well-formed buffer, and on any other buffer
    /// the error of the first decode step that fails, untouched.
    pub fn decode(buf: &[u8]) -> (r: Result<Self, DecodeError>)
        ensures
            match r {
                Ok(d) => spec_decode_request(buf@) == Ok::<DecodedRequestV, DecodeError>(
                    d.deep_view(),
                ),
                Err(e) => spec_decode_request(buf@) == Err::<DecodedRequestV, DecodeError>(e),
            },
    {
        let mut c = Cursor::new(buf);
        let size: i32 = decode_buffer(&mut c)?;
        let ghost p1 = c.position();
        let header: HeaderRequest = decode_buffer(&mut c)?;
        let ghost p2 = c.position();
        proof {
            HeaderRequest::wire_monotonic(buf@, p1);
        }
        let body: BodyRequest = match ApiKey::from_i16(header.api_key) {
            Some(ApiKey::ApiVersions) => {
                let v: crate::requests::BodyApiVersionRequest = decode_buffer_with_version(
                    &mut c,
                    header.api_version,
                )?;
                proof {
                    crate::requests::BodyApiVersionRequest::wire_with_version_monotonic(
                        buf@,
                        p2,
                        header.api_version,
                    );
                }
                BodyRequest::ApiVersions(v)
            },
            Some(ApiKey::Metadata) => {
                let v: crate::requests::BodyMetadataRequest = decode_buffer_with_version(
                    &mut c,
                    header.api_version,
                )?;
                proof {
                    crate::requests::BodyMetadataRequest::wire_with_version_monotonic(
                        buf@,
                        p2,
                        header.api_version,
                    );
                }
                BodyRequest::Metadata(v)
            },
            None => {
                return Err(DecodeError::UnsupportedApiKey);
            },
        };
        let end: usize = c.offset();
        if size >= 0 && end - 4 == size as usize {
            Ok(DecodedRequest { size, header, body })
        } else {
            Err(DecodeError::FrameSizeMismatch)
        }
    }
}

/// Law: decoding is deterministic. The model of a decoded frame is a function
/// of the bytes alone, so any two frames that `decode`'s contract admits for
/// the same buffer are equal.
pub proof fn lemma_decode_deterministic(b: Seq<u8>, d1: DecodedRequestV, d2: DecodedRequestV)
    requires
        spec_decode_request(b) == Ok::<DecodedRequestV, DecodeError>(d1),
        spec_decode_request(b) == Ok::<DecodedRequestV, DecodeError>(d2),
    ensures
        d1 == d2,
{
}

/// Law: a fixed-width field whose bytes run past the end of the buffer
/// decodes to `BufferUnderflow`, for each fixed-width primitive decoder.
pub proof fn lemma_fixed_width_underflow(b: Seq<u8>, pos: int)
    requires
        0 <= pos,
    ensures
        b.len() < pos + 1 ==> spec_decode_i8(b, pos) == Err::<(i8, int), DecodeError>(
            DecodeError::BufferUnderflow,
        ),
        b.len() < pos + 1 ==> spec_decode_bool(b, pos) == Err::<(bool, int), DecodeError>(
            DecodeError::BufferUnderflow,
        ),
        b.len() < pos + 2 ==> spec_decode_i16(b, pos) == Err::<(i16, int), DecodeError>(
            DecodeError::BufferUnderflow,
        ),
        b.len() < pos + 4 ==> spec_decode_i32(b, pos) == Err::<(i32, int), DecodeError>(
            DecodeError::BufferUnderflow,
        ),
{
}

/// Law: a string length prefix of `-1` decodes to the null state, a length
/// prefix of `0` to the empty state, and the two states are distinct values.
pub proof fn lemma_null_and_empty_distinct(b1: Seq<u8>, pos1: int, b2: Seq<u8>, pos2: int)
    requires
        0 <= pos1 && pos1 + 2 <= b1.len() && b1[pos1] == 0xffu8 && b1[pos1 + 1] == 0xffu8,
        0 <= pos2 && pos2 + 2 <= b2.len() && b2[pos2] == 0u8 && b2[pos2 + 1] == 0u8,
    ensures
        spec_decode_string(b1, pos1) == Ok::<(Option<Seq<char>>, int), DecodeError>(
            (None, pos1 + 2),
        ),
        spec_decode_string(b2, pos2) == Ok::<(Option<Seq<char>>, int), DecodeError>(
            (Some(Seq::<char>::empty()), pos2 + 2),
        ),
        Some(Seq::<char>::empty()) != None::<Seq<char>>,
{
    let payload = b2.subrange(pos2 + 2, pos2 + 2);
    assert(payload =~= Seq::<u8>::empty());
    assert(vstd::utf8::valid_utf8(payload));
    assert(vstd::utf8::decode_utf8(payload) =~= Seq::<char>::empty());
}

/// Law: a string length prefix below `-1` decodes to `BadData`.
pub proof fn lemma_negative_string_length_bad_data(b: Seq<u8>, pos: int)
    requires
        spec_decode_i16(b, pos) matches Ok((len, p)) && len < -1,
    ensures
        spec_decode_string(b, pos) == Err::<(Option<Seq<char>>, int), DecodeError>(
            DecodeError::BadData,
        ),
{
}

/// Law: a negative array count decodes to `BadData`, for an array of any
/// element type.
pub proof fn lemma_negative_array_count_bad_data<T: FromByte>(b: Seq<u8>, pos: int)
    requires
        spec_decode_i32(b, pos) matches Ok((count, p)) && count < 0,
    ensures
        spec_decode_array::<T>(b, pos) == Err::<(Seq<T::V>, int), DecodeError>(DecodeError::BadData),
{
}

/// Law: a frame whose header carries an api key with no registered body
/// decoder decodes to `UnsupportedApiKey`, whatever bytes follow the header.
pub proof fn lemma_unsupported_api_key(b: Seq<u8>)
    requires
        spec_decode_i32(b, 0) matches Ok((size, p1)) && HeaderRequest::wire(b, p1) matches Ok(
            (h, p2),
        ) && spec_api_key(h.api_key as int) is None,
    ensures
        spec_decode_request(b) == Err::<DecodedRequestV, DecodeError>(DecodeError::UnsupportedApiKey),
{
}

} // verus!
