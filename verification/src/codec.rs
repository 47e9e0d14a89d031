use scroll::Pwrite;
use vstd::prelude::*;

use crate::error::GadgetError;

verus! {

/// The error type of the `scroll` crate; nothing is read from it here.
#[verifier::external_type_specification]
#[verifier::external_body]
pub struct ExScrollError(scroll::Error);

/// The two bytes of `value`, least significant first.
pub open spec fn le_bytes_u16(value: u16) -> Seq<u8> {
    seq![(value % 256) as u8, (value / 256) as u8]
}

/// `buf` with the bytes of `bytes` laid over it from `offset` on.
pub open spec fn overlay(buf: Seq<u8>, offset: int, bytes: Seq<u8>) -> Seq<u8> {
    Seq::new(
        buf.len(),
        |i: int|
            if offset <= i < offset + bytes.len() {
                bytes[i - offset]
            } else {
                buf[i]
            },
    )
}

/// `scroll::Pwrite::pwrite_with::<u16>` on a byte slice, little-endian.
///
/// The source shows: an offset beyond the end is refused, as is a remainder
/// shorter than two bytes, and the buffer is then untouched; otherwise the two
/// bytes are stored least significant first at `offset`, the rest of the
/// buffer keeps its contents, and the count written, 2, comes back.
#[verifier::external_body]
fn scroll_pwrite_u16_le(buf: &mut Vec<u8>, value: u16, offset: usize) -> (r: Result<usize, scroll::Error>)
    ensures
        r is Ok <==> offset + 2 <= old(buf)@.len(),
        r matches Ok(written) ==> written == 2,
        final(buf)@ == (if r is Ok {
            overlay(old(buf)@, offset as int, le_bytes_u16(value))
        } else {
            old(buf)@
        }),
{
    buf.as_mut_slice().pwrite_with::<u16>(value, offset, scroll::LE)
}

/// `scroll::Pwrite::pwrite_with::<u8>` on a byte slice.
///
/// The source shows: an offset at or beyond the end is refused and the buffer
/// is then untouched; otherwise the byte is stored at `offset`, the rest of
/// the buffer keeps its contents, and the count written, 1, comes back.
#[verifier::external_body]
fn scroll_pwrite_u8(buf: &mut Vec<u8>, value: u8, offset: usize) -> (r: Result<usize, scroll::Error>)
    ensures
        r is Ok <==> offset < old(buf)@.len(),
        r matches Ok(written) ==> written == 1,
        final(buf)@ == (if r is Ok {
            overlay(old(buf)@, offset as int, seq![value])
        } else {
            old(buf)@
        }),
{
    buf.as_mut_slice().pwrite_with::<u8>(value, offset, scroll::LE)
}

/// Stores `value` little-endian at `offset` and returns the offset behind it.
///
/// Fails with `ReportEncoding`, leaving the buffer as it was, exactly when the
/// two bytes do not fit.
pub fn put_u16_le(buf: &mut Vec<u8>, value: u16, offset: usize) -> (r: Result<usize, GadgetError>)
    ensures
        offset + 2 <= old(buf)@.len() ==> r == Ok::<usize, GadgetError>((offset + 2) as usize)
            && final(buf)@ == overlay(old(buf)@, offset as int, le_bytes_u16(value)),
        offset + 2 > old(buf)@.len() ==> r == Err::<usize, GadgetError>(
            GadgetError::ReportEncoding,
        ) && final(buf)@ == old(buf)@,
{
    let len = buf.len();
    match scroll_pwrite_u16_le(buf, value, offset) {
        Ok(written) => {
            assert(offset + written <= len);
            Ok(offset + written)
        },
        Err(_) => Err(GadgetError::ReportEncoding),
    }
}

/// Stores `value` at `offset` and returns the offset behind it.
///
/// Fails with `ReportEncoding`, leaving the buffer as it was, exactly when
/// `offset` lies outside the buffer.
pub fn put_u8(buf: &mut Vec<u8>, value: u8, offset: usize) -> (r: Result<usize, GadgetError>)
    ensures
        offset < old(buf)@.len() ==> r == Ok::<usize, GadgetError>((offset + 1) as usize)
            && final(buf)@ == overlay(old(buf)@, offset as int, seq![value]),
        offset >= old(buf)@.len() ==> r == Err::<usize, GadgetError>(GadgetError::ReportEncoding)
            && final(buf)@ == old(buf)@,
{
    let len = buf.len();
    match scroll_pwrite_u8(buf, value, offset) {
        Ok(written) => {
            assert(offset + written <= len);
            Ok(offset + written)
        },
        Err(_) => Err(GadgetError::ReportEncoding),
    }
}

} // verus!
