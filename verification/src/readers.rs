//! The primitive readers on which every decoder is built: fixed-width
//! big-endian integers, a fixed number of bytes, and bytes behind a length
//! prefix.
//!
//! A primitive reader reports why it failed but not where: it always fails at
//! the cursor it was given, and the decoder that called it records that
//! cursor in an error of its own scope.

use crate::error::ErrorKind;
use crate::error::Needed;
use crate::error::ParseFailure;
use crate::span::Span;
use crate::span::SpanView;
use vstd::prelude::*;
use vstd::slice::slice_to_vec;

verus! {

/// The unsigned integer that two bytes encode, most significant byte first.
pub open spec fn be_u16_value(bytes: Seq<u8>) -> u16
    recommends
        bytes.len() >= 2,
{
    (bytes[0] * 256 + bytes[1]) as u16
}

/// The unsigned integer that four bytes encode, most significant byte first.
pub open spec fn be_u32_value(bytes: Seq<u8>) -> u32
    recommends
        bytes.len() >= 4,
{
    (bytes[0] * 16777216 + bytes[1] * 65536 + bytes[2] * 256 + bytes[3]) as u32
}

/// Calls `nom::number::complete::be_u8` on a byte slice and keeps the value.
/// nom returns the first byte when there is one and an error on empty input.
#[verifier::external_body]
fn nom_be_u8(bytes: &[u8]) -> (value: Option<u8>)
    ensures
        value == (if bytes@.len() >= 1 {
            Some(bytes@[0])
        } else {
            None::<u8>
        }),
{
    match nom::number::complete::be_u8::<&[u8], nom::error::Error<&[u8]>>(bytes) {
        Ok((_, value)) => Some(value),
        Err(_) => None,
    }
}

/// Calls `nom::number::complete::be_u16` on a byte slice and keeps the value.
/// nom folds the first two bytes, most significant first, and returns an
/// error when fewer than two are present.
#[verifier::external_body]
fn nom_be_u16(bytes: &[u8]) -> (value: Option<u16>)
    ensures
        value == (if bytes@.len() >= 2 {
            Some(be_u16_value(bytes@))
        } else {
            None::<u16>
        }),
{
    match nom::number::complete::be_u16::<&[u8], nom::error::Error<&[u8]>>(bytes) {
        Ok((_, value)) => Some(value),
        Err(_) => None,
    }
}

/// Calls `nom::number::complete::be_u32` on a byte slice and keeps the value.
/// nom folds the first four bytes, most significant first, and returns an
/// error when fewer than four are present.
#[verifier::external_body]
fn nom_be_u32(bytes: &[u8]) -> (value: Option<u32>)
    ensures
        value == (if bytes@.len() >= 4 {
            Some(be_u32_value(bytes@))
        } else {
            None::<u32>
        }),
{
    match nom::number::complete::be_u32::<&[u8], nom::error::Error<&[u8]>>(bytes) {
        Ok((_, value)) => Some(value),
        Err(_) => None,
    }
}

/// Reads one byte.
pub fn be_u8<'a>(buf: Span<'a>) -> (r: Result<(Span<'a>, u8), ErrorKind>)
    ensures
        match r {
            Ok((rest, value)) => buf@.len() >= 1 && rest@ == buf@.skip(1) && value == buf@.bytes[0],
            Err(kind) => buf@.len() < 1 && kind == ErrorKind::Eof,
        },
{
    match nom_be_u8(buf.fragment()) {
        Some(value) => Ok((buf.take_split(1).0, value)),
        None => Err(ErrorKind::Eof),
    }
}

/// Reads a big-endian 16-bit unsigned integer.
pub fn be_u16<'a>(buf: Span<'a>) -> (r: Result<(Span<'a>, u16), ErrorKind>)
    ensures
        match r {
            Ok((rest, value)) => buf@.len() >= 2 && rest@ == buf@.skip(2) && value == be_u16_value(
                buf@.bytes,
            ),
            Err(kind) => buf@.len() < 2 && kind == ErrorKind::Eof,
        },
{
    match nom_be_u16(buf.fragment()) {
        Some(value) => Ok((buf.take_split(2).0, value)),
        None => Err(ErrorKind::Eof),
    }
}

/// Reads a big-endian 32-bit unsigned integer.
pub fn be_u32<'a>(buf: Span<'a>) -> (r: Result<(Span<'a>, u32), ErrorKind>)
    ensures
        match r {
            Ok((rest, value)) => buf@.len() >= 4 && rest@ == buf@.skip(4) && value == be_u32_value(
                buf@.bytes,
            ),
            Err(kind) => buf@.len() < 4 && kind == ErrorKind::Eof,
        },
{
    match nom_be_u32(buf.fragment()) {
        Some(value) => Ok((buf.take_split(4).0, value)),
        None => Err(ErrorKind::Eof),
    }
}

/// Reads exactly `count` bytes and returns them as a cursor of their own.
pub fn take<'a>(buf: Span<'a>, count: usize) -> (r: Result<(Span<'a>, Span<'a>), ErrorKind>)
    ensures
        match r {
            Ok((rest, taken)) => count <= buf@.len() && rest@ == buf@.skip(count as nat) && taken@
                == buf@.take(count as nat),
            Err(kind) => count > buf@.len() && kind == ErrorKind::Eof,
        },
{
    if count > buf.len() {
        Err(ErrorKind::Eof)
    } else {
        Ok(buf.take_split(count))
    }
}

/// What more a section of `declared` bytes asks of a buffer that holds
/// `available`: nothing when it fits, else the number of bytes that lack.
pub open spec fn shortfall(declared: nat, available: nat) -> Option<Needed> {
    if declared > available {
        Some(Needed::Size((declared - available) as usize))
    } else {
        None
    }
}

/// Splits off a section of `declared` bytes, or says how many bytes lack.
fn split_section<'a>(buf: Span<'a>, declared: usize) -> (r: Result<(Span<'a>, Span<'a>), Needed>)
    ensures
        match r {
            Ok((rest, section)) => shortfall(declared as nat, buf@.len()) is None && rest@
                == buf@.skip(declared as nat) && section@ == buf@.take(declared as nat),
            Err(needed) => shortfall(declared as nat, buf@.len()) == Some(needed),
        },
{
    let available: usize = buf.len();
    if declared > available {
        Err(Needed::Size(declared - available))
    } else {
        Ok(buf.take_split(declared))
    }
}

/// The section behind a two-byte length prefix, as `length_data_u16` sees it.
pub open spec fn length_data_u16_spec(buf: SpanView) -> Result<
    (SpanView, SpanView),
    ParseFailure<ErrorKind>,
> {
    if buf.len() < 2 {
        Err(ParseFailure::Error(ErrorKind::Eof))
    } else {
        let declared = be_u16_value(buf.bytes) as nat;
        match shortfall(declared, buf.skip(2).len()) {
            Some(needed) => Err(ParseFailure::Incomplete(needed)),
            None => Ok((buf.skip(2 + declared), buf.skip(2).take(declared))),
        }
    }
}

/// Reads a big-endian 16-bit length and then that many bytes, which are
/// returned as a cursor of their own. The length does not count itself.
///
/// Fails with `Error(Eof)` when the length itself is cut short, and with
/// `Incomplete` when the buffer ends before the declared length does.
pub fn length_data_u16<'a>(buf: Span<'a>) -> (r: Result<
    (Span<'a>, Span<'a>),
    ParseFailure<ErrorKind>,
>)
    ensures
        match (r, length_data_u16_spec(buf@)) {
            (Ok((rest, section)), Ok((rest_view, section_view))) => rest@ == rest_view && section@
                == section_view,
            (Err(failure), Err(expected)) => failure == expected,
            _ => false,
        },
{
    match be_u16(buf) {
        Err(kind) => Err(ParseFailure::Error(kind)),
        Ok((body, declared)) => match split_section(body, declared as usize) {
            Err(needed) => Err(ParseFailure::Incomplete(needed)),
            Ok((rest, section)) => {
                proof {
                    buf@.lemma_skip_skip(2, declared as nat);
                }
                Ok((rest, section))
            },
        },
    }
}

/// The bytes behind a one-byte length prefix, as `length_value_u8` sees them.
pub open spec fn length_value_u8_spec(buf: SpanView) -> Result<
    (SpanView, Seq<u8>),
    ParseFailure<ErrorKind>,
> {
    if buf.len() < 1 {
        Err(ParseFailure::Error(ErrorKind::Eof))
    } else {
        let declared = buf.bytes[0] as nat;
        match shortfall(declared, buf.skip(1).len()) {
            Some(needed) => Err(ParseFailure::Incomplete(needed)),
            None => Ok((buf.skip(1 + declared), buf.bytes.subrange(1, 1 + declared as int))),
        }
    }
}

/// Reads a one-byte length and then that many bytes, which are returned as
/// they stand on the wire. The length does not count itself.
///
/// Fails with `Error(Eof)` when the length byte is missing, and with
/// `Incomplete` when the buffer ends before the declared length does.
pub fn length_value_u8<'a>(buf: Span<'a>) -> (r: Result<
    (Span<'a>, Vec<u8>),
    ParseFailure<ErrorKind>,
>)
    ensures
        match (r, length_value_u8_spec(buf@)) {
            (Ok((rest, value)), Ok((rest_view, value_view))) => rest@ == rest_view && value@
                == value_view,
            (Err(failure), Err(expected)) => failure == expected,
            _ => false,
        },
{
    match be_u8(buf) {
        Err(kind) => Err(ParseFailure::Error(kind)),
        Ok((body, declared)) => match split_section(body, declared as usize) {
            Err(needed) => Err(ParseFailure::Incomplete(needed)),
            Ok((rest, section)) => {
                proof {
                    buf@.lemma_skip_skip(1, declared as nat);
                }
                Ok((rest, slice_to_vec(section.fragment())))
            },
        },
    }
}

} // verus!
