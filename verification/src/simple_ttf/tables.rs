//! The table directory and the fixed-layout tables.

use super::error::{FontError, RequiredTable};
use super::reader;
use super::reader::{invalid_data, read_i16, read_u16, read_u32, require};
use std::collections::HashMap;
use vstd::prelude::*;

verus! {

/// Values from `head` needed to scale outlines and decode `loca`.
#[derive(Debug, Clone, Copy, PartialEq, Eq, Structural)]
pub struct HeadData {
    /// Number of font units in one em, normally used as the outline scale denominator.
    pub units_per_em: u16,
    /// `0` for short `loca` offsets and `1` for long offsets.
    pub index_to_loc_format: i16,
}

/// Basic metadata from the `maxp` table.
#[derive(Debug, Clone, Copy, PartialEq, Eq, Structural)]
pub struct MaxpTable {
    /// Raw 16.16 fixed-point `maxp` version.
    pub version: u32,
    /// Number of glyphs in the font, including glyph zero (`.notdef`).
    pub num_glyphs: u16,
}

/// Vertical line metrics and `hmtx` layout information from `hhea`.
#[derive(Debug, Clone, Copy, PartialEq, Eq, Structural)]
pub struct HheaTable {
    /// Recommended distance from the baseline to the highest line extent, in font units.
    pub ascender: i16,
    /// Recommended distance from the baseline to the lowest line extent, in font units.
    pub descender: i16,
    /// Recommended additional spacing between lines, in font units.
    pub line_gap: i16,
    /// Number of full `(advance_width, left_side_bearing)` records in `hmtx`.
    pub number_of_h_metrics: u16,
}

/// Horizontal layout metrics for one glyph, expressed in font units.
#[derive(Debug, Clone, Copy, PartialEq, Eq, Structural)]
pub struct HorizontalMetrics {
    /// Distance by which a horizontal text pen advances after this glyph.
    pub advance_width: u16,
    /// Horizontal distance from the pen position to the glyph's left bound.
    pub left_side_bearing: i16,
}

/// Where a table lies in the font file.
#[derive(Debug, Clone, Copy, PartialEq, Eq, Structural)]
pub struct TableRecord {
    pub offset: usize,
    pub length: usize,
}

impl TableRecord {
    /// The whole table lies inside a file of `size` bytes.
    pub open spec fn fits(self, size: nat) -> bool {
        self.offset + self.length <= size
    }
}

/// The directory record with the given index.
pub open spec fn directory_record(data: Seq<u8>, index: int) -> TableRecord {
    TableRecord {
        offset: reader::u32_at(data, 12 + index * 16 + 8) as usize,
        length: reader::u32_at(data, 12 + index * 16 + 12) as usize,
    }
}

/// The first `count` directory records by tag. The first record that leaves the
/// file, or repeats a tag, decides the error.
pub open spec fn directory_upto(data: Seq<u8>, count: nat) -> Result<
    Map<u32, TableRecord>,
    FontError,
>
    decreases count,
{
    if count == 0 {
        Ok(Map::empty())
    } else {
        let index = count - 1;
        match directory_upto(data, index as nat) {
            Err(error) => Err(error),
            Ok(tables) => {
                let tag = reader::u32_at(data, 12 + index * 16);
                let record = directory_record(data, index);
                match reader::spec_require(
                    data,
                    record.offset as int,
                    record.length as int,
                    "font table",
                ) {
                    Err(error) => Err(error),
                    Ok(_) => if tables.contains_key(tag) {
                        Err(FontError::InvalidData("duplicate table tag"))
                    } else {
                        Ok(tables.insert(tag, record))
                    },
                }
            },
        }
    }
}

/// The table directory of a font file. Only the two signatures of TrueType
/// outlines, version 1.0 and `true`, are accepted.
pub open spec fn spec_table_directory(data: Seq<u8>) -> Result<Map<u32, TableRecord>, FontError> {
    match reader::spec_require(data, 0, 12, "offset table") {
        Err(error) => Err(error),
        Ok(_) => if reader::u32_at(data, 0) != 0x0001_0000 && reader::u32_at(data, 0) != 0x7472_7565 {
            Err(FontError::InvalidData("font does not contain TrueType outlines"))
        } else {
            match reader::spec_require(data, 12, reader::u16_at(data, 4) * 16, "table directory") {
                Err(error) => Err(error),
                Ok(_) => directory_upto(data, reader::u16_at(data, 4) as nat),
            }
        },
    }
}

/// Every record of an accepted directory lies inside the file.
pub proof fn directory_records_fit(data: Seq<u8>, count: nat, tables: Map<u32, TableRecord>)
    requires
        directory_upto(data, count) == Ok::<_, FontError>(tables),
    ensures
        forall|tag: u32| #[trigger] tables.contains_key(tag) ==> tables[tag].fits(data.len()),
    decreases count,
{
    if count > 0 {
        let index = (count - 1) as nat;
        directory_records_fit(data, index, directory_upto(data, index)->Ok_0);
    }
}

/// An error among the first records stays the result, however many follow.
proof fn directory_error_stays(data: Seq<u8>, shorter: nat, longer: nat)
    requires
        shorter <= longer,
        directory_upto(data, shorter) is Err,
    ensures
        directory_upto(data, longer) == directory_upto(data, shorter),
    decreases longer,
{
    if shorter < longer {
        directory_error_stays(data, shorter, (longer - 1) as nat);
    }
}

/// Reads the table directory.
pub fn parse_table_directory(data: &[u8]) -> (r: Result<HashMap<u32, TableRecord>, FontError>)
    ensures
        match (r, spec_table_directory(data@)) {
            (Ok(tables), Ok(expected)) => tables@ == expected,
            (Err(error), Err(expected)) => error == expected,
            _ => false,
        },
        r matches Ok(tables) ==> forall|tag: u32| #[trigger]
            tables@.contains_key(tag) ==> tables@[tag].fits(data@.len()),
{
    broadcast use vstd::std_specs::hash::group_hash_axioms;

    require(data, 0, 12, "offset table")?;
    let sfnt_version = read_u32(data, 0)?;
    if sfnt_version != 0x0001_0000 && sfnt_version != 0x7472_7565 {
        return Err(invalid_data("font does not contain TrueType outlines"));
    }
    let num_tables: usize = read_u16(data, 4)? as usize;
    require(data, 12, num_tables * 16, "table directory")?;
    let mut tables: HashMap<u32, TableRecord> = HashMap::with_capacity(num_tables);
    assert(tables@ == Map::<u32, TableRecord>::empty());
    let mut index: usize = 0;
    while index < num_tables
        invariant
            index <= num_tables,
            num_tables == reader::u16_at(data@, 4),
            12 + num_tables * 16 <= data@.len(),
            directory_upto(data@, index as nat) == Ok::<_, FontError>(tables@),
            spec_table_directory(data@) == directory_upto(data@, num_tables as nat),
        decreases num_tables - index,
    {
        broadcast use vstd::std_specs::hash::group_hash_axioms;

        let offset: usize = 12 + index * 16;
        let tag = read_u32(data, offset)?;
        let table_offset: usize = read_u32(data, offset + 8)? as usize;
        let length: usize = read_u32(data, offset + 12)? as usize;
        let record = TableRecord { offset: table_offset, length };
        assert(record == directory_record(data@, index as int));
        let ghost before = tables@;
        proof {
            if directory_upto(data@, index as nat + 1) is Err {
                directory_error_stays(data@, index as nat + 1, num_tables as nat);
            }
        }
        require(data, table_offset, length, "font table")?;
        if tables.insert(tag, record).is_some() {
            return Err(invalid_data("duplicate table tag"));
        }
        index = index + 1;
    }
    proof {
        directory_records_fit(data@, num_tables as nat, tables@);
    }
    Ok(tables)
}

/// The record of a table that the font must have.
pub open spec fn spec_table_record(
    tables: Map<u32, TableRecord>,
    table: RequiredTable,
) -> Result<TableRecord, FontError> {
    if tables.contains_key(table.spec_tag()) {
        Ok(tables[table.spec_tag()])
    } else {
        Err(FontError::MissingTable(table))
    }
}

/// Looks up a table that the font must have.
pub fn table_record(tables: &HashMap<u32, TableRecord>, table: RequiredTable) -> (r: Result<
    TableRecord,
    FontError,
>)
    ensures
        r == spec_table_record(tables@, table),
{
    broadcast use vstd::std_specs::hash::group_hash_axioms;

    match tables.get(&table.tag()) {
        Some(record) => Ok(*record),
        None => Err(FontError::MissingTable(table)),
    }
}

/// The bytes of a table that the font must have.
pub open spec fn spec_table_data(
    data: Seq<u8>,
    tables: Map<u32, TableRecord>,
    table: RequiredTable,
) -> Result<Seq<u8>, FontError> {
    match spec_table_record(tables, table) {
        Err(error) => Err(error),
        Ok(record) => Ok(
            data.subrange(record.offset as int, record.offset + record.length),
        ),
    }
}

/// Borrows the bytes of a table that the font must have.
pub fn table_data<'a>(
    data: &'a [u8],
    tables: &HashMap<u32, TableRecord>,
    table: RequiredTable,
) -> (r: Result<&'a [u8], FontError>)
    requires
        forall|tag: u32| #[trigger]
            tables@.contains_key(tag) ==> tables@[tag].fits(data@.len()),
    ensures
        match (r, spec_table_data(data@, tables@, table)) {
            (Ok(bytes), Ok(expected)) => bytes@ == expected,
            (Err(error), Err(expected)) => error == expected,
            _ => false,
        },
{
    let record = table_record(tables, table)?;
    assert(record.fits(data@.len()));
    assert(data@.len() == data.len());
    Ok(vstd::slice::slice_subrange(data, record.offset, record.offset + record.length))
}

/// What `head` says, if its magic number, em size and `loca` format are in order.
pub open spec fn spec_head(data: Seq<u8>) -> Result<HeadData, FontError> {
    match reader::spec_require(data, 0, 54, "head table") {
        Err(error) => Err(error),
        Ok(_) => if reader::u32_at(data, 12) != 0x5f0f_3cf5 {
            Err(FontError::InvalidData("invalid head magic number"))
        } else if !(16 <= reader::u16_at(data, 18) <= 16384) {
            Err(FontError::InvalidData("head.unitsPerEm is outside the valid range"))
        } else if reader::i16_at(data, 50) != 0 && reader::i16_at(data, 50) != 1 {
            Err(FontError::InvalidData("unsupported head.indexToLocFormat"))
        } else {
            Ok(HeadData { units_per_em: reader::u16_at(data, 18), index_to_loc_format: reader::i16_at(data, 50) })
        },
    }
}

/// Reads `head`.
pub fn parse_head(data: &[u8]) -> (r: Result<HeadData, FontError>)
    ensures
        r == spec_head(data@),
{
    require(data, 0, 54, "head table")?;
    if read_u32(data, 12)? != 0x5f0f_3cf5 {
        return Err(invalid_data("invalid head magic number"));
    }
    let units_per_em = read_u16(data, 18)?;
    if units_per_em < 16 || units_per_em > 16384 {
        return Err(invalid_data("head.unitsPerEm is outside the valid range"));
    }
    let index_to_loc_format = read_i16(data, 50)?;
    if index_to_loc_format != 0 && index_to_loc_format != 1 {
        return Err(invalid_data("unsupported head.indexToLocFormat"));
    }
    Ok(HeadData { units_per_em, index_to_loc_format })
}

/// What `maxp` says, if it declares any glyph.
pub open spec fn spec_maxp(data: Seq<u8>) -> Result<MaxpTable, FontError> {
    match reader::spec_require(data, 0, 6, "maxp table") {
        Err(error) => Err(error),
        Ok(_) => if reader::u16_at(data, 4) == 0 {
            Err(FontError::InvalidData("maxp.numGlyphs is zero"))
        } else {
            Ok(MaxpTable { version: reader::u32_at(data, 0), num_glyphs: reader::u16_at(data, 4) })
        },
    }
}

/// Reads `maxp`.
pub fn parse_maxp(data: &[u8]) -> (r: Result<MaxpTable, FontError>)
    ensures
        r == spec_maxp(data@),
{
    require(data, 0, 6, "maxp table")?;
    let table = MaxpTable { version: read_u32(data, 0)?, num_glyphs: read_u16(data, 4)? };
    if table.num_glyphs == 0 {
        return Err(invalid_data("maxp.numGlyphs is zero"));
    }
    Ok(table)
}

/// What `hhea` says, if it declares any full metrics record.
pub open spec fn spec_hhea(data: Seq<u8>) -> Result<HheaTable, FontError> {
    match reader::spec_require(data, 0, 36, "hhea table") {
        Err(error) => Err(error),
        Ok(_) => if reader::u16_at(data, 34) == 0 {
            Err(FontError::InvalidData("hhea.numberOfHMetrics is zero"))
        } else {
            Ok(
                HheaTable {
                    ascender: reader::i16_at(data, 4),
                    descender: reader::i16_at(data, 6),
                    line_gap: reader::i16_at(data, 8),
                    number_of_h_metrics: reader::u16_at(data, 34),
                },
            )
        },
    }
}

/// Reads `hhea`.
pub fn parse_hhea(data: &[u8]) -> (r: Result<HheaTable, FontError>)
    ensures
        r == spec_hhea(data@),
{
    require(data, 0, 36, "hhea table")?;
    let table = HheaTable {
        ascender: read_i16(data, 4)?,
        descender: read_i16(data, 6)?,
        line_gap: read_i16(data, 8)?,
        number_of_h_metrics: read_u16(data, 34)?,
    };
    if table.number_of_h_metrics == 0 {
        return Err(invalid_data("hhea.numberOfHMetrics is zero"));
    }
    Ok(table)
}

/// The byte size of one `loca` entry.
pub open spec fn loca_entry_size(format: i16) -> int {
    if format == 0 {
        2
    } else {
        4
    }
}

/// One `loca` entry as a byte offset. Short entries store half of it.
pub open spec fn loca_entry(data: Seq<u8>, format: i16, index: int) -> u32 {
    if format == 0 {
        (reader::u16_at(data, index * 2) * 2) as u32
    } else {
        reader::u32_at(data, index * 4)
    }
}

/// The glyph locations: one per glyph, and one more for the end of the last.
pub open spec fn spec_loca(data: Seq<u8>, format: i16, num_glyphs: u16) -> Result<
    Seq<u32>,
    FontError,
> {
    match reader::spec_require(data, 0, (num_glyphs + 1) * loca_entry_size(format), "loca table") {
        Err(error) => Err(error),
        Ok(_) => Ok(
            Seq::new((num_glyphs + 1) as nat, |index: int| loca_entry(data, format, index)),
        ),
    }
}

/// Reads `loca`.
pub fn parse_loca(data: &[u8], format: i16, num_glyphs: u16) -> (r: Result<Vec<u32>, FontError>)
    ensures
        match (r, spec_loca(data@, format, num_glyphs)) {
            (Ok(offsets), Ok(expected)) => offsets@ == expected,
            (Err(error), Err(expected)) => error == expected,
            _ => false,
        },
{
    let count: usize = num_glyphs as usize + 1;
    let entry_size: usize = if format == 0 { 2 } else { 4 };
    require(data, 0, count * entry_size, "loca table")?;
    let mut offsets: Vec<u32> = Vec::with_capacity(count);
    let mut index: usize = 0;
    while index < count
        invariant
            index <= count,
            count == num_glyphs + 1,
            entry_size == loca_entry_size(format),
            count * entry_size <= data@.len(),
            offsets@ == Seq::new(index as nat, |i: int| loca_entry(data@, format, i)),
        decreases count - index,
    {
        let offset: u32 = if format == 0 {
            read_u16(data, index * 2)? as u32 * 2
        } else {
            read_u32(data, index * 4)?
        };
        offsets.push(offset);
        index = index + 1;
        assert(offsets@ =~= Seq::new(index as nat, |i: int| loca_entry(data@, format, i)));
    }
    Ok(offsets)
}

/// Glyph locations never go backwards.
pub open spec fn loca_ordered(offsets: Seq<u32>) -> bool {
    forall|i: int, j: int| 0 <= i <= j < offsets.len() ==> offsets[i] <= offsets[j]
}

/// Whether the glyph locations fit a `glyf` table of `glyf_length` bytes.
pub open spec fn spec_validate_loca(offsets: Seq<u32>, glyf_length: int) -> Result<
    (),
    FontError,
> {
    if !loca_ordered(offsets) {
        Err(FontError::InvalidData("loca offsets are not ordered"))
    } else if offsets.len() > 0 && offsets.last() > glyf_length {
        Err(FontError::InvalidData("loca offset is outside the glyf table"))
    } else {
        Ok(())
    }
}

/// Checks the glyph locations against the size of `glyf`.
pub fn validate_loca(offsets: &[u32], glyf_length: usize) -> (r: Result<(), FontError>)
    ensures
        r == spec_validate_loca(offsets@, glyf_length as int),
{
    let mut index: usize = 1;
    while index < offsets.len()
        invariant
            1 <= index,
            index <= offsets@.len() || offsets@.len() == 0,
            forall|i: int, j: int| 0 <= i <= j < index && j < offsets@.len() ==> offsets@[i]
                <= offsets@[j],
        decreases offsets@.len() - index,
    {
        if offsets[index - 1] > offsets[index] {
            return Err(invalid_data("loca offsets are not ordered"));
        }
        index = index + 1;
    }
    if offsets.len() > 0 && offsets[offsets.len() - 1] as usize > glyf_length {
        return Err(invalid_data("loca offset is outside the glyf table"));
    }
    Ok(())
}

/// The metrics of one glyph. Glyphs after the last full record reuse its width
/// and store only a side bearing.
pub open spec fn hmtx_entry(data: Seq<u8>, long_count: int, index: int) -> HorizontalMetrics {
    if index < long_count {
        HorizontalMetrics {
            advance_width: reader::u16_at(data, index * 4),
            left_side_bearing: reader::i16_at(data, index * 4 + 2),
        }
    } else {
        HorizontalMetrics {
            advance_width: reader::u16_at(data, (long_count - 1) * 4),
            left_side_bearing: reader::i16_at(data, long_count * 4 + (index - long_count) * 2),
        }
    }
}

/// The metrics of every glyph.
pub open spec fn spec_hmtx(data: Seq<u8>, num_glyphs: u16, number_of_h_metrics: u16) -> Result<
    Seq<HorizontalMetrics>,
    FontError,
> {
    if number_of_h_metrics > num_glyphs {
        Err(FontError::InvalidData("hhea.numberOfHMetrics exceeds maxp.numGlyphs"))
    } else {
        match reader::spec_require(
            data,
            0,
            number_of_h_metrics * 4 + (num_glyphs - number_of_h_metrics) * 2,
            "hmtx table",
        ) {
            Err(error) => Err(error),
            Ok(_) => if number_of_h_metrics == 0 {
                Err(FontError::InvalidData("hmtx has no long horizontal metrics"))
            } else {
                Ok(
                    Seq::new(
                        num_glyphs as nat,
                        |index: int| hmtx_entry(data, number_of_h_metrics as int, index),
                    ),
                )
            },
        }
    }
}

/// Reads `hmtx`.
pub fn parse_hmtx(data: &[u8], num_glyphs: u16, number_of_h_metrics: u16) -> (r: Result<
    Vec<HorizontalMetrics>,
    FontError,
>)
    ensures
        match (r, spec_hmtx(data@, num_glyphs, number_of_h_metrics)) {
            (Ok(metrics), Ok(expected)) => metrics@ == expected,
            (Err(error), Err(expected)) => error == expected,
            _ => false,
        },
{
    if number_of_h_metrics > num_glyphs {
        return Err(invalid_data("hhea.numberOfHMetrics exceeds maxp.numGlyphs"));
    }
    let long_count: usize = number_of_h_metrics as usize;
    let glyph_count: usize = num_glyphs as usize;
    require(data, 0, long_count * 4 + (glyph_count - long_count) * 2, "hmtx table")?;
    if long_count == 0 {
        return Err(invalid_data("hmtx has no long horizontal metrics"));
    }
    let mut metrics: Vec<HorizontalMetrics> = Vec::with_capacity(glyph_count);
    let mut index: usize = 0;
    while index < long_count
        invariant
            index <= long_count,
            long_count <= glyph_count <= 0xffff,
            long_count * 4 + (glyph_count - long_count) * 2 <= data@.len(),
            metrics@ == Seq::new(index as nat, |i: int| hmtx_entry(data@, long_count as int, i)),
        decreases long_count - index,
    {
        metrics.push(
            HorizontalMetrics {
                advance_width: read_u16(data, index * 4)?,
                left_side_bearing: read_i16(data, index * 4 + 2)?,
            },
        );
        index = index + 1;
        assert(metrics@ =~= Seq::new(
            index as nat,
            |i: int| hmtx_entry(data@, long_count as int, i),
        ));
    }
    let last_advance_width = metrics[long_count - 1].advance_width;
    while index < glyph_count
        invariant
            long_count <= index <= glyph_count,
            0 < long_count <= glyph_count <= 0xffff,
            long_count * 4 + (glyph_count - long_count) * 2 <= data@.len(),
            last_advance_width == reader::u16_at(data@, (long_count - 1) * 4),
            metrics@ == Seq::new(index as nat, |i: int| hmtx_entry(data@, long_count as int, i)),
        decreases glyph_count - index,
    {
        metrics.push(
            HorizontalMetrics {
                advance_width: last_advance_width,
                left_side_bearing: read_i16(data, long_count * 4 + (index - long_count) * 2)?,
            },
        );
        index = index + 1;
        assert(metrics@ =~= Seq::new(
            index as nat,
            |i: int| hmtx_entry(data@, long_count as int, i),
        ));
    }
    Ok(metrics)
}

/// Every glyph has metrics, and those after the last full record advance by the
/// width of that record.
pub proof fn trailing_glyphs_reuse_the_last_width(
    data: Seq<u8>,
    num_glyphs: u16,
    number_of_h_metrics: u16,
    metrics: Seq<HorizontalMetrics>,
    index: int,
)
    requires
        spec_hmtx(data, num_glyphs, number_of_h_metrics) == Ok::<_, FontError>(metrics),
        number_of_h_metrics <= index < num_glyphs,
    ensures
        metrics.len() == num_glyphs,
        metrics[index].advance_width == metrics[number_of_h_metrics - 1].advance_width,
{
}

} // verus!
