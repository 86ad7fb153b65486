//! Bounds-checked big-endian reads.

use super::error::FontError;
use vstd::prelude::*;

verus! {

/// Whether `length` bytes from `offset` on lie inside `data`, and what is
/// reported when they do not.
pub open spec fn spec_require(
    data: Seq<u8>,
    offset: int,
    length: int,
    context: &'static str,
) -> Result<(), FontError> {
    if offset + length > usize::MAX {
        Err(FontError::InvalidData("font data range overflow"))
    } else if offset + length > data.len() {
        Err(FontError::UnexpectedEof(context))
    } else {
        Ok(())
    }
}

/// The unsigned 16-bit number stored at `offset`.
pub open spec fn u16_at(data: Seq<u8>, offset: int) -> u16 {
    (data[offset] * 0x100 + data[offset + 1]) as u16
}

/// A 16-bit pattern read as a two's complement number.
pub open spec fn signed16(value: u16) -> i16 {
    if value < 0x8000 {
        value as i16
    } else {
        (value - 0x1_0000) as i16
    }
}

/// An 8-bit pattern read as a two's complement number.
pub open spec fn signed8(value: u8) -> i16 {
    if value < 0x80 {
        value as i16
    } else {
        (value - 0x100) as i16
    }
}

/// The signed 16-bit number stored at `offset`.
pub open spec fn i16_at(data: Seq<u8>, offset: int) -> i16 {
    signed16(u16_at(data, offset))
}

/// The unsigned 32-bit number stored at `offset`.
pub open spec fn u32_at(data: Seq<u8>, offset: int) -> u32 {
    (data[offset] * 0x100_0000 + data[offset + 1] * 0x1_0000 + data[offset + 2] * 0x100
        + data[offset + 3]) as u32
}

/// What reading a byte at `offset` yields.
pub open spec fn spec_read_u8(data: Seq<u8>, offset: int) -> Result<u8, FontError> {
    match spec_require(data, offset, 1, "u8") {
        Err(error) => Err(error),
        Ok(_) => Ok(data[offset]),
    }
}

/// What reading an unsigned 16-bit number at `offset` yields.
pub open spec fn spec_read_u16(data: Seq<u8>, offset: int) -> Result<u16, FontError> {
    match spec_require(data, offset, 2, "u16") {
        Err(error) => Err(error),
        Ok(_) => Ok(u16_at(data, offset)),
    }
}

/// What reading a signed 16-bit number at `offset` yields.
pub open spec fn spec_read_i16(data: Seq<u8>, offset: int) -> Result<i16, FontError> {
    match spec_require(data, offset, 2, "i16") {
        Err(error) => Err(error),
        Ok(_) => Ok(i16_at(data, offset)),
    }
}

/// What reading an unsigned 32-bit number at `offset` yields.
pub open spec fn spec_read_u32(data: Seq<u8>, offset: int) -> Result<u32, FontError> {
    match spec_require(data, offset, 4, "u32") {
        Err(error) => Err(error),
        Ok(_) => Ok(u32_at(data, offset)),
    }
}

/// An error about the content of the font.
pub fn invalid_data(message: &'static str) -> (r: FontError)
    ensures
        r == FontError::InvalidData(message),
{
    FontError::InvalidData(message)
}

/// Fails unless `length` bytes from `offset` on lie inside `data`.
pub fn require(data: &[u8], offset: usize, length: usize, context: &'static str) -> (r: Result<
    (),
    FontError,
>)
    ensures
        r == spec_require(data@, offset as int, length as int, context),
{
    let end = match offset.checked_add(length) {
        Some(end) => end,
        None => return Err(invalid_data("font data range overflow")),
    };
    if end > data.len() {
        return Err(FontError::UnexpectedEof(context));
    }
    Ok(())
}

/// Reads one byte.
pub fn read_u8(data: &[u8], offset: usize) -> (r: Result<u8, FontError>)
    ensures
        r == spec_read_u8(data@, offset as int),
{
    require(data, offset, 1, "u8")?;
    Ok(data[offset])
}

/// Reads an unsigned 16-bit number.
pub fn read_u16(data: &[u8], offset: usize) -> (r: Result<u16, FontError>)
    ensures
        r == spec_read_u16(data@, offset as int),
{
    require(data, offset, 2, "u16")?;
    Ok(data[offset] as u16 * 0x100 + data[offset + 1] as u16)
}

/// Reinterprets a 16-bit pattern as a two's complement number.
pub fn to_signed16(value: u16) -> (r: i16)
    ensures
        r == signed16(value),
{
    if value < 0x8000 {
        value as i16
    } else {
        (value as i32 - 0x1_0000) as i16
    }
}

/// Reinterprets an 8-bit pattern as a two's complement number.
pub fn to_signed8(value: u8) -> (r: i16)
    ensures
        r == signed8(value),
{
    if value < 0x80 {
        value as i16
    } else {
        value as i16 - 0x100
    }
}

/// Reads a signed 16-bit number.
pub fn read_i16(data: &[u8], offset: usize) -> (r: Result<i16, FontError>)
    ensures
        r == spec_read_i16(data@, offset as int),
{
    require(data, offset, 2, "i16")?;
    Ok(to_signed16(data[offset] as u16 * 0x100 + data[offset + 1] as u16))
}

/// Reads an unsigned 32-bit number.
pub fn read_u32(data: &[u8], offset: usize) -> (r: Result<u32, FontError>)
    ensures
        r == spec_read_u32(data@, offset as int),
{
    require(data, offset, 4, "u32")?;
    Ok(
        data[offset] as u32 * 0x100_0000 + data[offset + 1] as u32 * 0x1_0000 + data[offset
            + 2] as u32 * 0x100 + data[offset + 3] as u32,
    )
}

/// Reads the components of a composite glyph one field after the other.
pub struct GlyphReader<'a> {
    pub data: &'a [u8],
    pub cursor: usize,
}

impl<'a> GlyphReader<'a> {
    /// Reads one byte and moves past it; a failed read moves nothing.
    pub fn u8(&mut self) -> (r: Result<u8, FontError>)
        ensures
            r == spec_read_u8(old(self).data@, old(self).cursor as int),
            final(self).data == old(self).data,
            final(self).cursor == old(self).cursor + (if r is Ok { 1int } else { 0int }),
    {
        let value = read_u8(self.data, self.cursor)?;
        self.cursor = self.cursor + 1;
        Ok(value)
    }

    /// Reads an unsigned 16-bit number and moves past it; a failed read moves nothing.
    pub fn u16(&mut self) -> (r: Result<u16, FontError>)
        ensures
            r == spec_read_u16(old(self).data@, old(self).cursor as int),
            final(self).data == old(self).data,
            final(self).cursor == old(self).cursor + (if r is Ok { 2int } else { 0int }),
    {
        let value = read_u16(self.data, self.cursor)?;
        self.cursor = self.cursor + 2;
        Ok(value)
    }

    /// Reads a signed 16-bit number and moves past it; a failed read moves nothing.
    pub fn i16(&mut self) -> (r: Result<i16, FontError>)
        ensures
            r == (match spec_read_u16(old(self).data@, old(self).cursor as int) {
                Err(error) => Err::<i16, FontError>(error),
                Ok(value) => Ok(signed16(value)),
            }),
            final(self).data == old(self).data,
            final(self).cursor == old(self).cursor + (if r is Ok { 2int } else { 0int }),
    {
        Ok(to_signed16(self.u16()?))
    }

    /// Reads a 2.14 fixed-point number, whose unit is 1/16384, and moves past it;
    /// a failed read moves nothing.
    pub fn f2dot14(&mut self) -> (r: Result<i16, FontError>)
        ensures
            r == (match spec_read_u16(old(self).data@, old(self).cursor as int) {
                Err(error) => Err::<i16, FontError>(error),
                Ok(value) => Ok(signed16(value)),
            }),
            final(self).data == old(self).data,
            final(self).cursor == old(self).cursor + (if r is Ok { 2int } else { 0int }),
    {
        self.i16()
    }
}

} // verus!
