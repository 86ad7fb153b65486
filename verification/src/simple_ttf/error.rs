//! What can be wrong with a font.

use vstd::prelude::*;
use vstd::string::StringExecFns;

verus! {

/// The broad class of a [`FontError`].
#[derive(Debug, Clone, Copy, PartialEq, Eq, Structural)]
pub enum ErrorKind {
    /// The bytes contradict the format or one of the loader's limits.
    InvalidData,
    /// A declared structure ends beyond the available bytes.
    UnexpectedEof,
    /// The font is well formed but needs a feature that is not implemented.
    Unsupported,
}

/// A table without which no font is accepted.
#[derive(Debug, Clone, Copy, PartialEq, Eq, Structural)]
pub enum RequiredTable {
    Head,
    Maxp,
    Hhea,
    Cmap,
    Loca,
    Glyf,
    Hmtx,
}

impl RequiredTable {
    /// The four tag bytes as one big-endian number.
    pub open spec fn spec_tag(self) -> u32 {
        match self {
            RequiredTable::Head => 0x6865_6164,
            RequiredTable::Maxp => 0x6d61_7870,
            RequiredTable::Hhea => 0x6868_6561,
            RequiredTable::Cmap => 0x636d_6170,
            RequiredTable::Loca => 0x6c6f_6361,
            RequiredTable::Glyf => 0x676c_7966,
            RequiredTable::Hmtx => 0x686d_7478,
        }
    }

    /// The message of a font that lacks this table.
    pub open spec fn spec_missing(self) -> &'static str {
        match self {
            RequiredTable::Head => "required table \"head\" is missing",
            RequiredTable::Maxp => "required table \"maxp\" is missing",
            RequiredTable::Hhea => "required table \"hhea\" is missing",
            RequiredTable::Cmap => "required table \"cmap\" is missing",
            RequiredTable::Loca => "required table \"loca\" is missing",
            RequiredTable::Glyf => "required table \"glyf\" is missing",
            RequiredTable::Hmtx => "required table \"hmtx\" is missing",
        }
    }

    /// The tag as it stands in the table directory.
    pub fn tag(self) -> (r: u32)
        ensures
            r == self.spec_tag(),
    {
        match self {
            RequiredTable::Head => 0x6865_6164,
            RequiredTable::Maxp => 0x6d61_7870,
            RequiredTable::Hhea => 0x6868_6561,
            RequiredTable::Cmap => 0x636d_6170,
            RequiredTable::Loca => 0x6c6f_6361,
            RequiredTable::Glyf => 0x676c_7966,
            RequiredTable::Hmtx => 0x686d_7478,
        }
    }

    /// Says that this table is absent.
    pub fn missing(self) -> (r: &'static str)
        ensures
            r == self.spec_missing(),
    {
        match self {
            RequiredTable::Head => "required table \"head\" is missing",
            RequiredTable::Maxp => "required table \"maxp\" is missing",
            RequiredTable::Hhea => "required table \"hhea\" is missing",
            RequiredTable::Cmap => "required table \"cmap\" is missing",
            RequiredTable::Loca => "required table \"loca\" is missing",
            RequiredTable::Glyf => "required table \"glyf\" is missing",
            RequiredTable::Hmtx => "required table \"hmtx\" is missing",
        }
    }
}

/// Why a font, or one of its glyphs, was refused.
#[derive(Debug, Clone, Copy, PartialEq, Eq)]
pub enum FontError {
    /// The bytes are inconsistent; the text says how.
    InvalidData(&'static str),
    /// The font has no such table.
    MissingTable(RequiredTable),
    /// The named structure is cut short.
    UnexpectedEof(&'static str),
    /// The named feature is not implemented.
    Unsupported(&'static str),
}

impl FontError {
    /// The class of this error.
    pub open spec fn spec_kind(self) -> ErrorKind {
        match self {
            FontError::InvalidData(_) => ErrorKind::InvalidData,
            FontError::MissingTable(_) => ErrorKind::InvalidData,
            FontError::UnexpectedEof(_) => ErrorKind::UnexpectedEof,
            FontError::Unsupported(_) => ErrorKind::Unsupported,
        }
    }

    /// The text shown to a user.
    pub open spec fn spec_message(self) -> Seq<char> {
        match self {
            FontError::InvalidData(message) => message@,
            FontError::MissingTable(table) => table.spec_missing()@,
            FontError::UnexpectedEof(context) => "truncated "@ + context@,
            FontError::Unsupported(message) => message@,
        }
    }

    /// The class of this error.
    pub fn kind(&self) -> (r: ErrorKind)
        ensures
            r == self.spec_kind(),
    {
        match self {
            FontError::InvalidData(_) => ErrorKind::InvalidData,
            FontError::MissingTable(_) => ErrorKind::InvalidData,
            FontError::UnexpectedEof(_) => ErrorKind::UnexpectedEof,
            FontError::Unsupported(_) => ErrorKind::Unsupported,
        }
    }

    /// The text shown to a user.
    pub fn message(&self) -> (r: String)
        ensures
            r@ == self.spec_message(),
    {
        match self {
            FontError::InvalidData(message) => (*message).to_owned(),
            FontError::MissingTable(table) => table.missing().to_owned(),
            FontError::UnexpectedEof(context) => {
                let mut text = "truncated ".to_owned();
                text.append(context);
                text
            },
            FontError::Unsupported(message) => (*message).to_owned(),
        }
    }
}

} // verus!
