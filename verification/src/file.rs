//! Bounded reads and the results of handle operations.
//!
//! The file itself stays with the caller. A read is made in three steps: the
//! library decides the limit ([`read_limit`]) and allocates the buffer
//! ([`read_buffer`]), the caller lets the stream fill it once, and the library
//! turns what the stream reported into what the script gets
//! ([`finish_read_string`], [`finish_read_blob`]). Writes, seeks and queries
//! are completed the same way ([`finish_transfer`], [`finish_offset`]). So the
//! only allocation that depends on a script's argument is made here, under
//! the host's ceiling.

use crate::error::FsError;
use crate::text::decode;
use rhai::{NativeCallContext, INT};
use vstd::prelude::*;
use vstd::utf8::{decode_utf8, encode_utf8, valid_utf8};

verus! {

/// `rhai::NativeCallContext`, the call context that the engine hands to a
/// native function. It is carried through unopened.
#[verifier::external_type_specification]
#[verifier::external_body]
pub struct ExNativeCallContext<'a>(NativeCallContext<'a>);

/// The host's ceiling on string lengths, in bytes, that is in force for the
/// call behind `ctx`: what `Engine::max_string_size` gives for the engine that
/// the context borrows. 0 stands for no ceiling.
pub uninterp spec fn string_ceiling(ctx: &NativeCallContext) -> usize;

/// The host's ceiling on array and blob lengths that is in force for the call
/// behind `ctx`: what `Engine::max_array_size` gives for the engine that the
/// context borrows. 0 stands for no ceiling.
pub uninterp spec fn array_ceiling(ctx: &NativeCallContext) -> usize;

/// `Engine::max_string_size` of the engine behind the context
/// (`NativeCallContext::engine`). The getter reads one field of the engine
/// that the context borrows, so its result is the ceiling of that context.
/// The host may set any value, so nothing more is claimed of it.
#[verifier::external_body]
fn max_string_size(ctx: &NativeCallContext) -> (n: usize)
    ensures
        n == string_ceiling(ctx),
{
    ctx.engine().max_string_size()
}

/// `Engine::max_array_size` of the engine behind the context
/// (`NativeCallContext::engine`). The getter reads one field of the engine
/// that the context borrows, so its result is the ceiling of that context.
/// Nothing more is claimed of it.
#[verifier::external_body]
fn max_array_size(ctx: &NativeCallContext) -> (n: usize)
    ensures
        n == array_ceiling(ctx),
{
    ctx.engine().max_array_size()
}

/// How many bytes one read may take from the stream.
#[derive(Debug, Clone, Copy, PartialEq, Eq, Structural)]
pub enum ReadLimit {
    /// Everything up to the end of the stream.
    Unbounded,
    /// At most this many bytes.
    AtMost(usize),
}

/// The buffer length that a script's length argument stands for. A negative
/// argument counts as the unsigned integer with the same 64 bits; a length
/// beyond what the machine can address counts as the largest it can.
pub open spec fn requested_spec(len: INT) -> usize {
    let unsigned: int = if len >= 0 {
        len as int
    } else {
        len + 0x1_0000_0000_0000_0000
    };
    if unsigned <= usize::MAX {
        unsigned as usize
    } else {
        usize::MAX
    }
}

/// The smaller of two lengths.
pub open spec fn smaller(a: usize, b: usize) -> usize {
    if a <= b {
        a
    } else {
        b
    }
}

/// The limit of a read under the host's ceiling (0: none) for a requested
/// length (0: none). The four cases are tried in this order.
pub open spec fn read_limit_spec(ceiling: usize, len: INT) -> ReadLimit {
    if ceiling == 0 && len == 0 {
        ReadLimit::Unbounded
    } else if ceiling == 0 && len > 0 {
        ReadLimit::AtMost(requested_spec(len))
    } else if ceiling > 0 && len == 0 {
        ReadLimit::AtMost(ceiling)
    } else {
        ReadLimit::AtMost(smaller(ceiling, requested_spec(len)))
    }
}

/// Returns the buffer length that a length argument stands for.
fn requested(len: INT) -> (n: usize)
    ensures
        n == requested_spec(len),
{
    if len >= 0 {
        let wide: u64 = len as u64;
        if wide > usize::MAX as u64 {
            usize::MAX
        } else {
            wide as usize
        }
    } else {
        let below: u64 = (-(len + 1)) as u64;
        let wide: u64 = u64::MAX - below;
        if wide > usize::MAX as u64 {
            usize::MAX
        } else {
            wide as usize
        }
    }
}

/// Decides how many bytes a read may take, from the ceiling in force and the
/// length the script asked for.
pub fn read_limit(ceiling: usize, len: INT) -> (limit: ReadLimit)
    ensures
        limit == read_limit_spec(ceiling, len),
{
    if len == 0 {
        if ceiling == 0 {
            ReadLimit::Unbounded
        } else {
            ReadLimit::AtMost(ceiling)
        }
    } else {
        let want: usize = requested(len);
        if ceiling == 0 && len > 0 {
            ReadLimit::AtMost(want)
        } else if ceiling <= want {
            ReadLimit::AtMost(ceiling)
        } else {
            ReadLimit::AtMost(want)
        }
    }
}

/// Decides the limit of a text read from the string ceiling of the engine
/// behind `ctx`.
pub fn string_read_limit(ctx: &NativeCallContext, len: INT) -> (limit: ReadLimit)
    ensures
        limit == read_limit_spec(string_ceiling(ctx), len),
{
    read_limit(max_string_size(ctx), len)
}

/// Decides the limit of a binary read from the array ceiling of the engine
/// behind `ctx`.
pub fn blob_read_limit(ctx: &NativeCallContext, len: INT) -> (limit: ReadLimit)
    ensures
        limit == read_limit_spec(array_ceiling(ctx), len),
{
    read_limit(max_array_size(ctx), len)
}

/// The buffer that a read under `limit` starts from: empty where the stream is
/// read to its end, else as many zero bytes as the limit allows.
pub open spec fn read_buffer_spec(limit: ReadLimit) -> Seq<u8> {
    match limit {
        ReadLimit::Unbounded => Seq::empty(),
        ReadLimit::AtMost(n) => Seq::new(n as nat, |i: int| 0u8),
    }
}

/// Allocates the buffer for a read. This is the only allocation a bounded
/// read makes, and its length is the limit.
pub fn read_buffer(limit: ReadLimit) -> (buffer: Vec<u8>)
    ensures
        buffer@ == read_buffer_spec(limit),
{
    let mut buffer: Vec<u8> = Vec::new();
    match limit {
        ReadLimit::Unbounded => {},
        ReadLimit::AtMost(n) => {
            buffer.resize(n, 0);
        },
    }
    assert(buffer@ =~= read_buffer_spec(limit));
    buffer
}

/// The bytes that a read obtained: the first `count` bytes of the buffer, or
/// all of it where the count reaches past its end.
pub open spec fn obtained_spec(buffer: Seq<u8>, count: usize) -> Seq<u8> {
    if count <= buffer.len() {
        buffer.take(count as int)
    } else {
        buffer
    }
}

/// Completes a text read. `outcome` is what the stream reported: the number
/// of bytes it put at the front of `buffer`, or the operating system's
/// message. The bytes obtained are decoded as UTF-8; none is replaced.
pub fn finish_read_string(buffer: Vec<u8>, outcome: Result<usize, String>) -> (result: Result<
    String,
    FsError,
>)
    ensures
        match outcome {
            Ok(count) => {
                let bytes = obtained_spec(buffer@, count);
                if valid_utf8(bytes) {
                    result matches Ok(text) && text@ == decode_utf8(bytes)
                } else {
                    result matches Err(FsError::EncodingFailure(_))
                }
            },
            Err(message) => result matches Err(FsError::IoFailure(text)) && text@ == message@,
        },
{
    match outcome {
        Ok(count) => {
            let mut bytes = buffer;
            bytes.truncate(count);
            match decode(bytes) {
                Ok(text) => Ok(text),
                Err(message) => Err(FsError::EncodingFailure(message)),
            }
        },
        Err(message) => Err(FsError::IoFailure(message)),
    }
}

/// Completes a binary read. The result is the bytes obtained and no more:
/// what the stream did not fill is cut off, so the blob never holds a byte
/// that was not read.
pub fn finish_read_blob(buffer: Vec<u8>, outcome: Result<usize, String>) -> (result: Result<
    Vec<u8>,
    FsError,
>)
    ensures
        match outcome {
            Ok(count) => result matches Ok(bytes) && bytes@ == obtained_spec(buffer@, count),
            Err(message) => result matches Err(FsError::IoFailure(text)) && text@ == message@,
        },
{
    match outcome {
        Ok(count) => {
            let mut bytes = buffer;
            bytes.truncate(count);
            Ok(bytes)
        },
        Err(message) => Err(FsError::IoFailure(message)),
    }
}

/// The script integer that stands for a byte count or offset, if there is one.
pub open spec fn script_int_spec(val: u64) -> Option<INT> {
    if val <= INT::MAX {
        Some(val as INT)
    } else {
        None
    }
}

/// Converts a byte count or offset to the script engine's integer. A value
/// beyond its range is an overflow, never a truncated number.
pub fn convert_to_int(val: u64) -> (result: Result<INT, FsError>)
    ensures
        match script_int_spec(val) {
            Some(n) => result == Ok::<INT, FsError>(n),
            None => result == Err::<INT, FsError>(FsError::NumericOverflow),
        },
{
    if val <= INT::MAX as u64 {
        Ok(val as INT)
    } else {
        Err(FsError::NumericOverflow)
    }
}

/// Completes a write, or a read into a buffer that the script supplied.
/// `outcome` is the number of bytes the stream transferred, or the operating
/// system's message.
pub fn finish_transfer(outcome: Result<usize, String>) -> (result: Result<INT, FsError>)
    ensures
        match outcome {
            Ok(count) => match script_int_spec(count as u64) {
                Some(n) => result == Ok::<INT, FsError>(n),
                None => result == Err::<INT, FsError>(FsError::NumericOverflow),
            },
            Err(message) => result matches Err(FsError::IoFailure(text)) && text@ == message@,
        },
{
    match outcome {
        Ok(count) => convert_to_int(count as u64),
        Err(message) => Err(FsError::IoFailure(message)),
    }
}

/// Completes a seek, a position query or a size query. `outcome` is the
/// offset or size in bytes that the stream reported, or the operating
/// system's message.
pub fn finish_offset(outcome: Result<u64, String>) -> (result: Result<INT, FsError>)
    ensures
        match outcome {
            Ok(offset) => match script_int_spec(offset) {
                Some(n) => result == Ok::<INT, FsError>(n),
                None => result == Err::<INT, FsError>(FsError::NumericOverflow),
            },
            Err(message) => result matches Err(FsError::IoFailure(text)) && text@ == message@,
        },
{
    match outcome {
        Ok(offset) => convert_to_int(offset),
        Err(message) => Err(FsError::IoFailure(message)),
    }
}

/// The message of the failure that a negative seek position gets.
pub open spec fn negative_seek_message() -> Seq<char> {
    "invalid seek to a negative position"@
}

/// Decides where a seek goes: to `pos` bytes from the start of the stream.
/// A negative position is refused as an I/O failure; it is never wrapped into
/// a large offset.
pub fn seek_target(pos: INT) -> (result: Result<u64, FsError>)
    ensures
        pos >= 0 ==> result == Ok::<u64, FsError>(pos as u64),
        pos < 0 ==> (result matches Err(FsError::IoFailure(text)) && text@
            == negative_seek_message()),
{
    if pos >= 0 {
        Ok(pos as u64)
    } else {
        Err(FsError::IoFailure("invalid seek to a negative position".to_owned()))
    }
}

/// Under a ceiling no read hands a script more bytes than the ceiling,
/// whatever length the script asked for and however many bytes the stream
/// reported: the buffer that is allocated, the bytes that a binary read
/// returns and the text that a text read returns are each at most `ceiling`
/// bytes long.
pub proof fn lemma_ceiling_bounds_read(ceiling: usize, len: INT, buffer: Seq<u8>, count: usize)
    requires
        ceiling > 0,
        buffer.len() == read_buffer_spec(read_limit_spec(ceiling, len)).len(),
    ensures
        read_limit_spec(ceiling, len) matches ReadLimit::AtMost(n) && n <= ceiling,
        read_buffer_spec(read_limit_spec(ceiling, len)).len() <= ceiling,
        buffer.len() <= ceiling,
        obtained_spec(buffer, count).len() <= ceiling,
        valid_utf8(obtained_spec(buffer, count)) ==> encode_utf8(
            decode_utf8(obtained_spec(buffer, count)),
        ).len() <= ceiling,
{
    let bytes = obtained_spec(buffer, count);
    if valid_utf8(bytes) {
        vstd::utf8::decode_utf8_encode_utf8(bytes);
    }
}

/// A read never takes more than the script asked for: with a positive length
/// the buffer, and so the bytes obtained, are at most that long.
pub proof fn lemma_request_bounds_read(ceiling: usize, len: INT, buffer: Seq<u8>, count: usize)
    requires
        len > 0,
        buffer.len() == read_buffer_spec(read_limit_spec(ceiling, len)).len(),
    ensures
        read_limit_spec(ceiling, len) matches ReadLimit::AtMost(n) && n <= len,
        buffer.len() <= len,
        obtained_spec(buffer, count).len() <= len,
{
}

/// A read that obtains nothing, as at the end of the stream, gives the empty
/// blob and the empty text and no failure, whatever the buffer held and
/// whatever limit it was made for.
pub proof fn lemma_nothing_read_is_empty(buffer: Seq<u8>)
    ensures
        obtained_spec(buffer, 0) == Seq::<u8>::empty(),
        valid_utf8(obtained_spec(buffer, 0)),
        decode_utf8(obtained_spec(buffer, 0)) == Seq::<char>::empty(),
{
    assert(obtained_spec(buffer, 0) =~= Seq::<u8>::empty());
}

/// A text read and a binary read that obtained the same bytes give the same
/// bytes: the text, encoded again, is the blob.
pub proof fn lemma_text_is_the_blob(buffer: Seq<u8>, count: usize)
    requires
        valid_utf8(obtained_spec(buffer, count)),
    ensures
        encode_utf8(decode_utf8(obtained_spec(buffer, count))) == obtained_spec(buffer, count),
{
    vstd::utf8::decode_utf8_encode_utf8(obtained_spec(buffer, count));
}

/// Where the stream holds fewer bytes than the limit, the result is as long
/// as what was read, not as long as the buffer.
pub proof fn lemma_short_read_is_not_padded(buffer: Seq<u8>, count: usize)
    requires
        count <= buffer.len(),
    ensures
        obtained_spec(buffer, count).len() == count,
        forall|i: int| 0 <= i < count ==> obtained_spec(buffer, count)[i] == buffer[i],
{
}

} // verus!
