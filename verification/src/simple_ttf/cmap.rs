//! Character maps: Unicode `cmap` subtables in formats 4 and 12.

use super::error::FontError;
use super::reader;
use super::reader::{invalid_data, read_i16, read_u16, read_u32, require};
use vstd::prelude::*;

verus! {

/// A run of consecutive code points that map to consecutive glyphs.
#[derive(Debug, Clone, Copy, PartialEq, Eq, Structural)]
pub struct CmapGroup {
    pub start_char_code: u32,
    pub end_char_code: u32,
    pub start_glyph_id: u32,
}

impl CmapGroup {
    /// The run covers `codepoint`.
    pub open spec fn covers(self, codepoint: u32) -> bool {
        self.start_char_code <= codepoint <= self.end_char_code
    }
}

/// A character map as a value: the bytes of a format 4 subtable, or the runs of
/// a format 12 subtable.
pub enum CmapModel {
    Format4 { data: Seq<u8>, seg_count: nat },
    Format12 { groups: Seq<CmapGroup> },
}

impl CmapModel {
    /// The glyph of `codepoint`, if the map has one other than glyph zero.
    pub open spec fn lookup(self, codepoint: u32) -> Option<u16> {
        match self {
            CmapModel::Format4 { data, seg_count } => lookup4(data, seg_count as int, codepoint),
            CmapModel::Format12 { groups } => lookup12(groups, codepoint),
        }
    }
}

// ---------------------------------------------------------------------------
// Format 4
// ---------------------------------------------------------------------------

/// The last code point of a segment.
pub open spec fn segment_end(data: Seq<u8>, segment: int) -> u16 {
    reader::u16_at(data, 14 + segment * 2)
}

/// The first code point of a segment, in a subtable of `count` segments.
pub open spec fn segment_start(data: Seq<u8>, count: int, segment: int) -> u16 {
    reader::u16_at(data, 16 + count * 2 + segment * 2)
}

/// What is added to the glyph numbers of a segment.
pub open spec fn segment_delta(data: Seq<u8>, count: int, segment: int) -> i16 {
    reader::i16_at(data, 16 + count * 4 + segment * 2)
}

/// Where the range offset of a segment is stored.
pub open spec fn range_offset_at(count: int, segment: int) -> int {
    16 + count * 6 + segment * 2
}

/// `segment` is the first whose end reaches `codepoint`.
pub open spec fn first_reaching(data: Seq<u8>, count: int, codepoint: u32, segment: int) -> bool {
    &&& 0 <= segment < count
    &&& segment_end(data, segment) >= codepoint
    &&& forall|earlier: int| 0 <= earlier < segment ==> segment_end(data, earlier) < codepoint
}

/// Adds a signed delta to a glyph number, modulo the 16-bit range.
pub open spec fn offset_glyph(glyph: u16, delta: i16) -> u16 {
    ((glyph + delta) % 0x1_0000) as u16
}

/// The glyph that a segment gives to a code point at or after its start.
pub open spec fn segment_glyph(data: Seq<u8>, count: int, segment: int, codepoint: u32) -> Option<
    u16,
> {
    let delta = segment_delta(data, count, segment);
    let position = range_offset_at(count, segment);
    let range_offset = reader::u16_at(data, position);
    let entry = position + range_offset + (codepoint - segment_start(data, count, segment)) * 2;
    let glyph = if range_offset == 0 {
        offset_glyph(codepoint as u16, delta)
    } else if entry + 2 > data.len() || reader::u16_at(data, entry) == 0 {
        0
    } else {
        offset_glyph(reader::u16_at(data, entry), delta)
    };
    if glyph == 0 {
        None
    } else {
        Some(glyph)
    }
}

/// The glyph of a code point in a format 4 subtable.
pub open spec fn lookup4(data: Seq<u8>, count: int, codepoint: u32) -> Option<u16> {
    if codepoint <= 0xffff && exists|segment: int| first_reaching(data, count, codepoint, segment) {
        let segment = choose|segment: int| first_reaching(data, count, codepoint, segment);
        if codepoint < segment_start(data, count, segment) {
            None
        } else {
            segment_glyph(data, count, segment, codepoint)
        }
    } else {
        None
    }
}

/// Segments run forwards, and their ends increase.
pub open spec fn segments_valid(data: Seq<u8>, count: int) -> bool {
    &&& forall|segment: int|
        0 <= segment < count ==> #[trigger] segment_start(data, count, segment) <= segment_end(
            data,
            segment,
        )
    &&& forall|i: int, j: int|
        0 <= i < j < count ==> #[trigger] segment_end(data, i) < #[trigger] segment_end(data, j)
}

/// A format 4 subtable that starts at the first byte of `data`.
pub open spec fn spec_cmap_format4(data: Seq<u8>) -> Result<CmapModel, FontError> {
    match reader::spec_require(data, 0, 16, "cmap format 4 header") {
        Err(error) => Err(error),
        Ok(_) => {
            let length = reader::u16_at(data, 2) as int;
            let seg_count_x2 = reader::u16_at(data, 6) as int;
            match reader::spec_require(data, 0, length, "cmap format 4") {
                Err(error) => Err(error),
                Ok(_) => if seg_count_x2 == 0 || seg_count_x2 % 2 != 0 {
                    Err(FontError::InvalidData("invalid cmap format 4 segment count"))
                } else if 16 + (seg_count_x2 / 2) * 8 > length {
                    Err(FontError::InvalidData("truncated cmap format 4 arrays"))
                } else if !segments_valid(data, seg_count_x2 / 2) {
                    Err(FontError::InvalidData("invalid cmap format 4 segments"))
                } else {
                    Ok(
                        CmapModel::Format4 {
                            data: data.take(length),
                            seg_count: (seg_count_x2 / 2) as nat,
                        },
                    )
                },
            }
        },
    }
}

/// A format 4 subtable.
#[derive(Debug)]
pub struct CmapFormat4 {
    data: Vec<u8>,
    seg_count: usize,
}

impl CmapFormat4 {
    #[verifier::type_invariant]
    spec fn arrays_fit(self) -> bool {
        16 + self.seg_count * 8 <= self.data@.len()
    }

    /// The subtable as a value.
    pub closed spec fn model(self) -> CmapModel {
        CmapModel::Format4 { data: self.data@, seg_count: self.seg_count as nat }
    }

    /// The glyph of a code point, if it has one other than glyph zero.
    pub fn glyph_index(&self, codepoint: u32) -> (r: Option<u16>)
        ensures
            r == self.model().lookup(codepoint),
    {
        proof {
            use_type_invariant(self);
        }
        let ghost data = self.data@;
        let count: usize = self.seg_count;
        let bytes: &[u8] = self.data.as_slice();
        if codepoint > 0xffff {
            return None;
        }
        assert(data.len() == bytes.len());
        let mut segment: usize = 0;
        while segment < count
            invariant
                segment <= count,
                codepoint <= 0xffff,
                bytes@ == data,
                16 + count * 8 <= data.len(),
                data.len() <= usize::MAX,
                forall|earlier: int|
                    0 <= earlier < segment ==> segment_end(data, earlier) < codepoint,
            ensures
                segment <= count,
                segment < count ==> first_reaching(data, count as int, codepoint, segment as int),
                segment == count ==> !exists|s: int| first_reaching(data, count as int, codepoint, s),
            decreases count - segment,
        {
            let end: u16 = match read_u16(bytes, 14 + segment * 2) {
                Ok(end) => end,
                Err(_) => return None,
            };
            if end as u32 >= codepoint {
                break ;
            }
            segment = segment + 1;
        }
        if segment == count {
            return None;
        }
        proof {
            let s = choose|s: int| first_reaching(data, count as int, codepoint, s);
            assert(first_reaching(data, count as int, codepoint, s));
            if s < segment {
                assert(segment_end(data, s) < codepoint);
            }
            if segment < s {
                assert(segment_end(data, segment as int) < codepoint);
            }
            assert(s == segment);
        }
        let start: u16 = match read_u16(bytes, 16 + count * 2 + segment * 2) {
            Ok(start) => start,
            Err(_) => return None,
        };
        if codepoint < start as u32 {
            return None;
        }
        let delta: i16 = match read_i16(bytes, 16 + count * 4 + segment * 2) {
            Ok(delta) => delta,
            Err(_) => return None,
        };
        let position: usize = 16 + count * 6 + segment * 2;
        let range_offset: u16 = match read_u16(bytes, position) {
            Ok(range_offset) => range_offset,
            Err(_) => return None,
        };
        let glyph_id: u16 = if range_offset == 0 {
            add_delta(codepoint as u16, delta)
        } else {
            // The range offset counts from the position of its own array entry,
            // not from the beginning of the subtable.
            let base: usize = match position.checked_add(range_offset as usize) {
                Some(base) => base,
                None => return None,
            };
            let entry: usize = match base.checked_add((codepoint - start as u32) as usize * 2) {
                Some(entry) => entry,
                None => return None,
            };
            let stored: u16 = match read_u16(bytes, entry) {
                Ok(stored) => stored,
                Err(_) => return None,
            };
            if stored == 0 {
                return None;
            }
            add_delta(stored, delta)
        };
        if glyph_id != 0 {
            Some(glyph_id)
        } else {
            None
        }
    }
}

/// Adds a signed delta to a glyph number, modulo the 16-bit range.
fn add_delta(glyph: u16, delta: i16) -> (r: u16)
    ensures
        r == offset_glyph(glyph, delta),
{
    glyph.wrapping_add_signed(delta)
}

/// Reads a format 4 subtable that starts at the first byte of `data`.
#[verifier::loop_isolation(false)]
pub fn parse_cmap_format4(data: &[u8]) -> (r: Result<CmapFormat4, FontError>)
    ensures
        match (r, spec_cmap_format4(data@)) {
            (Ok(cmap), Ok(expected)) => cmap.model() == expected,
            (Err(error), Err(expected)) => error == expected,
            _ => false,
        },
{
    require(data, 0, 16, "cmap format 4 header")?;
    let length: usize = read_u16(data, 2)? as usize;
    require(data, 0, length, "cmap format 4")?;
    let seg_count_x2 = read_u16(data, 6)?;
    if seg_count_x2 == 0 || seg_count_x2 % 2 != 0 {
        return Err(invalid_data("invalid cmap format 4 segment count"));
    }
    let seg_count: usize = (seg_count_x2 / 2) as usize;
    if 16 + seg_count * 8 > length {
        return Err(invalid_data("truncated cmap format 4 arrays"));
    }
    let mut previous_end: Option<u16> = None;
    let mut segment: usize = 0;
    while segment < seg_count
        invariant
            segment <= seg_count,
            16 + seg_count * 8 <= length <= data@.len(),
            length <= 0xffff,
            previous_end == (if segment == 0 {
                None
            } else {
                Some(segment_end(data@, segment - 1))
            }),
            segments_valid_upto(data@, seg_count as int, segment as int),
        decreases seg_count - segment,
    {
        let end = read_u16(data, 14 + segment * 2)?;
        let start = read_u16(data, 16 + seg_count * 2 + segment * 2)?;
        let overlaps = match previous_end {
            Some(previous) => end <= previous,
            None => false,
        };
        if start > end || overlaps {
            assert(segment_start(data@, seg_count as int, segment as int) == start);
            assert(segment_end(data@, segment as int) == end);
            assert(!segments_valid(data@, seg_count as int));
            return Err(invalid_data("invalid cmap format 4 segments"));
        }
        previous_end = Some(end);
        segment = segment + 1;
    }
    let bytes: Vec<u8> = copy_prefix(data, length);
    Ok(CmapFormat4 { data: bytes, seg_count })
}

/// The first `checked` segments are valid.
spec fn segments_valid_upto(data: Seq<u8>, count: int, checked: int) -> bool {
    &&& forall|segment: int|
        0 <= segment < checked ==> #[trigger] segment_start(data, count, segment) <= segment_end(
            data,
            segment,
        )
    &&& forall|i: int, j: int|
        0 <= i < j < checked ==> #[trigger] segment_end(data, i) < #[trigger] segment_end(data, j)
}

/// Copies the first `length` bytes.
fn copy_prefix(data: &[u8], length: usize) -> (r: Vec<u8>)
    requires
        length <= data@.len(),
    ensures
        r@ == data@.take(length as int),
{
    let mut bytes: Vec<u8> = Vec::with_capacity(length);
    let mut index: usize = 0;
    while index < length
        invariant
            index <= length <= data@.len(),
            bytes@ == data@.take(index as int),
        decreases length - index,
    {
        bytes.push(data[index]);
        index = index + 1;
        assert(bytes@ =~= data@.take(index as int));
    }
    bytes
}

// ---------------------------------------------------------------------------
// Format 12
// ---------------------------------------------------------------------------

/// The group with the given index in a format 12 subtable.
pub open spec fn group_at(data: Seq<u8>, index: int) -> CmapGroup {
    CmapGroup {
        start_char_code: reader::u32_at(data, 16 + index * 12),
        end_char_code: reader::u32_at(data, 16 + index * 12 + 4),
        start_glyph_id: reader::u32_at(data, 16 + index * 12 + 8),
    }
}

/// Runs are nonempty, stay inside Unicode, and are sorted without overlap.
pub open spec fn groups_valid(groups: Seq<CmapGroup>) -> bool {
    &&& forall|i: int|
        0 <= i < groups.len() ==> (#[trigger] groups[i]).start_char_code
            <= groups[i].end_char_code <= 0x10ffff
    &&& forall|i: int, j: int|
        0 <= i < j < groups.len() ==> (#[trigger] groups[i]).end_char_code < (
        #[trigger] groups[j]).start_char_code
}

/// The glyph of a code point that the run covers, unless it is zero or too large.
pub open spec fn group_glyph(group: CmapGroup, codepoint: u32) -> Option<u16> {
    let glyph = group.start_glyph_id + (codepoint - group.start_char_code);
    if 0 < glyph <= 0xffff {
        Some(glyph as u16)
    } else {
        None
    }
}

/// The glyph of a code point among the runs of a format 12 subtable.
pub open spec fn lookup12(groups: Seq<CmapGroup>, codepoint: u32) -> Option<u16> {
    if exists|i: int| 0 <= i < groups.len() && (#[trigger] groups[i]).covers(codepoint) {
        let i = choose|i: int| 0 <= i < groups.len() && (#[trigger] groups[i]).covers(codepoint);
        group_glyph(groups[i], codepoint)
    } else {
        None
    }
}

/// A format 12 subtable that starts at the first byte of `data`.
pub open spec fn spec_cmap_format12(data: Seq<u8>) -> Result<CmapModel, FontError> {
    match reader::spec_require(data, 0, 16, "cmap format 12 header") {
        Err(error) => Err(error),
        Ok(_) => {
            let length = reader::u32_at(data, 4) as int;
            let count = reader::u32_at(data, 12) as int;
            let groups = Seq::new(count as nat, |index: int| group_at(data, index));
            match reader::spec_require(data, 0, length, "cmap format 12") {
                Err(error) => Err(error),
                Ok(_) => if count * 12 + 16 > usize::MAX {
                    Err(FontError::InvalidData("cmap format 12 length overflow"))
                } else if count * 12 + 16 > length {
                    Err(FontError::InvalidData("truncated cmap format 12 groups"))
                } else if !groups_valid(groups) {
                    Err(FontError::InvalidData("invalid cmap format 12 groups"))
                } else {
                    Ok(CmapModel::Format12 { groups })
                },
            }
        },
    }
}

/// A format 12 subtable.
#[derive(Debug)]
pub struct CmapFormat12 {
    groups: Vec<CmapGroup>,
}

impl CmapFormat12 {
    #[verifier::type_invariant]
    spec fn sorted(self) -> bool {
        groups_valid(self.groups@)
    }

    /// The subtable as a value.
    pub closed spec fn model(self) -> CmapModel {
        CmapModel::Format12 { groups: self.groups@ }
    }

    /// The glyph of a code point, if it has one other than glyph zero.
    pub fn glyph_index(&self, codepoint: u32) -> (r: Option<u16>)
        ensures
            r == self.model().lookup(codepoint),
    {
        proof {
            use_type_invariant(self);
        }
        let ghost groups = self.groups@;
        let mut low: usize = 0;
        let mut high: usize = self.groups.len();
        while low < high
            invariant
                low <= high <= groups.len(),
                groups == self.groups@,
                groups_valid(groups),
                forall|i: int|
                    0 <= i < groups.len() && (#[trigger] groups[i]).covers(codepoint) ==> low <= i
                        < high,
            decreases high - low,
        {
            let middle: usize = low + (high - low) / 2;
            let group = self.groups[middle];
            if codepoint < group.start_char_code {
                high = middle;
            } else if codepoint > group.end_char_code {
                low = middle + 1;
            } else {
                proof {
                    assert(groups[middle as int].covers(codepoint));
                    let i = choose|i: int|
                        0 <= i < groups.len() && (#[trigger] groups[i]).covers(codepoint);
                    if i < middle {
                        assert(groups[i].end_char_code < groups[middle as int].start_char_code);
                    }
                    if middle < i {
                        assert(groups[middle as int].end_char_code < groups[i].start_char_code);
                    }
                    assert(i == middle);
                }
                let glyph_id: u32 = match group.start_glyph_id.checked_add(
                    codepoint - group.start_char_code,
                ) {
                    Some(glyph_id) => glyph_id,
                    None => return None,
                };
                if glyph_id == 0 || glyph_id > 0xffff {
                    return None;
                }
                return Some(glyph_id as u16);
            }
        }
        None
    }
}

/// Reads a format 12 subtable that starts at the first byte of `data`.
#[verifier::loop_isolation(false)]
pub fn parse_cmap_format12(data: &[u8]) -> (r: Result<CmapFormat12, FontError>)
    ensures
        match (r, spec_cmap_format12(data@)) {
            (Ok(cmap), Ok(expected)) => cmap.model() == expected,
            (Err(error), Err(expected)) => error == expected,
            _ => false,
        },
{
    require(data, 0, 16, "cmap format 12 header")?;
    let length: usize = read_u32(data, 4)? as usize;
    require(data, 0, length, "cmap format 12")?;
    let num_groups: usize = read_u32(data, 12)? as usize;
    let arrays_length: usize = match num_groups.checked_mul(12) {
        Some(product) => match product.checked_add(16) {
            Some(sum) => sum,
            None => return Err(invalid_data("cmap format 12 length overflow")),
        },
        None => return Err(invalid_data("cmap format 12 length overflow")),
    };
    if arrays_length > length {
        return Err(invalid_data("truncated cmap format 12 groups"));
    }
    let ghost all = Seq::new(num_groups as nat, |index: int| group_at(data@, index));
    let mut groups: Vec<CmapGroup> = Vec::with_capacity(num_groups);
    let mut index: usize = 0;
    while index < num_groups
        invariant
            index <= num_groups,
            16 + num_groups * 12 <= length <= data@.len(),
            all == Seq::new(num_groups as nat, |i: int| group_at(data@, i)),
            groups@ == all.take(index as int),
            groups_valid(groups@),
        decreases num_groups - index,
    {
        let offset: usize = 16 + index * 12;
        let group = CmapGroup {
            start_char_code: read_u32(data, offset)?,
            end_char_code: read_u32(data, offset + 4)?,
            start_glyph_id: read_u32(data, offset + 8)?,
        };
        assert(group == all[index as int]);
        let overlaps = if index > 0 {
            groups[index - 1].end_char_code >= group.start_char_code
        } else {
            false
        };
        if group.start_char_code > group.end_char_code || group.end_char_code > 0x10ffff
            || overlaps {
            assert(index > 0 ==> groups@[index - 1] == all[index - 1]);
            assert(!groups_valid(all));
            return Err(invalid_data("invalid cmap format 12 groups"));
        }
        groups.push(group);
        index = index + 1;
        assert(groups@ =~= all.take(index as int));
    }
    assert(groups@ =~= all);
    Ok(CmapFormat12 { groups })
}

// ---------------------------------------------------------------------------
// The table
// ---------------------------------------------------------------------------

/// A supported character map.
#[derive(Debug)]
pub enum CmapSubtable {
    Format4(CmapFormat4),
    Format12(CmapFormat12),
}

impl CmapSubtable {
    /// The map as a value.
    pub open spec fn model(self) -> CmapModel {
        match self {
            CmapSubtable::Format4(cmap) => cmap.model(),
            CmapSubtable::Format12(cmap) => cmap.model(),
        }
    }

    /// The glyph of a code point, if the map has one other than glyph zero.
    pub fn glyph_index(&self, codepoint: u32) -> (r: Option<u16>)
        ensures
            r == self.model().lookup(codepoint),
    {
        match self {
            CmapSubtable::Format4(cmap) => cmap.glyph_index(codepoint),
            CmapSubtable::Format12(cmap) => cmap.glyph_index(codepoint),
        }
    }
}

/// The maps as values.
pub open spec fn models(cmaps: Seq<CmapSubtable>) -> Seq<CmapModel> {
    cmaps.map_values(|cmap: CmapSubtable| cmap.model())
}

/// How much a subtable is wanted; zero means not at all. Format 12 covers the
/// supplementary planes and comes before format 4.
pub open spec fn spec_cmap_priority(platform_id: u16, encoding_id: u16, format: u16) -> u8 {
    let unicode = platform_id == 0 || (platform_id == 3 && (encoding_id == 1 || encoding_id == 10));
    if unicode && format == 12 {
        2
    } else if unicode && format == 4 {
        1
    } else {
        0
    }
}

/// Ranks a subtable by its platform, encoding and format.
pub fn cmap_priority(platform_id: u16, encoding_id: u16, format: u16) -> (r: u8)
    ensures
        r == spec_cmap_priority(platform_id, encoding_id, format),
{
    let unicode_encoding = platform_id == 0 || (platform_id == 3 && (encoding_id == 1
        || encoding_id == 10));
    if !unicode_encoding {
        return 0;
    }
    if format == 12 {
        2
    } else if format == 4 {
        1
    } else {
        0
    }
}

/// A wanted subtable: where it starts, and its format.
#[derive(Debug, Clone, Copy, PartialEq, Eq, Structural)]
pub struct CmapRecord {
    pub offset: usize,
    pub format: u16,
}

/// The wanted subtables among the first `count` encoding records. The first
/// record that points outside the table decides the error.
pub open spec fn wanted_records(data: Seq<u8>, count: nat) -> Result<Seq<CmapRecord>, FontError>
    decreases count,
{
    if count == 0 {
        Ok(Seq::empty())
    } else {
        match wanted_records(data, (count - 1) as nat) {
            Err(error) => Err(error),
            Ok(records) => {
                let at = 4 + (count - 1) * 8;
                let offset = reader::u32_at(data, at + 4) as usize;
                match reader::spec_require(data, offset as int, 2, "cmap subtable") {
                    Err(error) => Err(error),
                    Ok(_) => {
                        let format = reader::u16_at(data, offset as int);
                        if spec_cmap_priority(
                            reader::u16_at(data, at),
                            reader::u16_at(data, at + 2),
                            format,
                        ) > 0 {
                            Ok(records.push(CmapRecord { offset, format }))
                        } else {
                            Ok(records)
                        }
                    },
                }
            },
        }
    }
}

/// The records of one format, in their order.
pub open spec fn of_format(records: Seq<CmapRecord>, format: u16) -> Seq<CmapRecord>
    decreases records.len(),
{
    if records.len() == 0 {
        Seq::empty()
    } else if records.last().format == format {
        of_format(records.drop_last(), format).push(records.last())
    } else {
        of_format(records.drop_last(), format)
    }
}

/// The wanted subtables in the order in which they are asked: format 12 first,
/// and within a format as the font lists them.
pub open spec fn by_preference(records: Seq<CmapRecord>) -> Seq<CmapRecord> {
    of_format(records, 12) + of_format(records, 4)
}

/// The subtable that a record points to.
pub open spec fn subtable_at(data: Seq<u8>, record: CmapRecord) -> Result<CmapModel, FontError> {
    if record.format == 4 {
        spec_cmap_format4(data.skip(record.offset as int))
    } else {
        spec_cmap_format12(data.skip(record.offset as int))
    }
}

/// The subtables of the first `count` records. A record that repeats the
/// position of its predecessor adds nothing.
pub open spec fn subtables_upto(data: Seq<u8>, records: Seq<CmapRecord>, count: nat) -> Result<
    Seq<CmapModel>,
    FontError,
>
    decreases count,
{
    if count == 0 {
        Ok(Seq::empty())
    } else {
        match subtables_upto(data, records, (count - 1) as nat) {
            Err(error) => Err(error),
            Ok(done) => if count >= 2 && records[count - 1].offset == records[count - 2].offset {
                Ok(done)
            } else {
                match subtable_at(data, records[count - 1]) {
                    Err(error) => Err(error),
                    Ok(subtable) => Ok(done.push(subtable)),
                }
            },
        }
    }
}

/// The usable character maps of a font, best first.
pub open spec fn spec_cmap(data: Seq<u8>) -> Result<Seq<CmapModel>, FontError> {
    match reader::spec_require(data, 0, 4, "cmap table") {
        Err(error) => Err(error),
        Ok(_) => if reader::u16_at(data, 0) != 0 {
            Err(FontError::InvalidData("unsupported cmap version"))
        } else {
            let count = reader::u16_at(data, 2);
            match reader::spec_require(data, 4, count * 8, "cmap encoding records") {
                Err(error) => Err(error),
                Ok(_) => match wanted_records(data, count as nat) {
                    Err(error) => Err(error),
                    Ok(records) => {
                        let ordered = by_preference(records);
                        match subtables_upto(data, ordered, ordered.len()) {
                            Err(error) => Err(error),
                            Ok(cmaps) => if cmaps.len() == 0 {
                                Err(
                                    FontError::InvalidData("no supported Unicode cmap subtable"),
                                )
                            } else {
                                Ok(cmaps)
                            },
                        }
                    },
                },
            }
        },
    }
}

proof fn wanted_error_stays(data: Seq<u8>, shorter: nat, longer: nat)
    requires
        shorter <= longer,
        wanted_records(data, shorter) is Err,
    ensures
        wanted_records(data, longer) == wanted_records(data, shorter),
    decreases longer,
{
    if shorter < longer {
        wanted_error_stays(data, shorter, (longer - 1) as nat);
    }
}

proof fn subtables_error_stays(
    data: Seq<u8>,
    records: Seq<CmapRecord>,
    shorter: nat,
    longer: nat,
)
    requires
        shorter <= longer,
        subtables_upto(data, records, shorter) is Err,
    ensures
        subtables_upto(data, records, longer) == subtables_upto(data, records, shorter),
    decreases longer,
{
    if shorter < longer {
        subtables_error_stays(data, records, shorter, (longer - 1) as nat);
    }
}

/// Every wanted record has format 4 or 12 and points inside the table.
spec fn records_sound(records: Seq<CmapRecord>, size: nat) -> bool {
    forall|i: int|
        0 <= i < records.len() ==> ((#[trigger] records[i]).format == 4 || records[i].format == 12)
            && records[i].offset <= size
}

/// Collects the wanted subtables in the order of the encoding records.
fn read_records(data: &[u8], num_tables: usize) -> (r: Result<Vec<CmapRecord>, FontError>)
    requires
        num_tables <= 0xffff,
        4 + num_tables * 8 <= data@.len(),
    ensures
        match (r, wanted_records(data@, num_tables as nat)) {
            (Ok(records), Ok(expected)) => records@ == expected && records_sound(
                records@,
                data@.len(),
            ),
            (Err(error), Err(expected)) => error == expected,
            _ => false,
        },
{
    let mut records: Vec<CmapRecord> = Vec::new();
    let mut index: usize = 0;
    while index < num_tables
        invariant
            index <= num_tables <= 0xffff,
            4 + num_tables * 8 <= data@.len(),
            wanted_records(data@, index as nat) == Ok::<_, FontError>(records@),
            records_sound(records@, data@.len()),
        decreases num_tables - index,
    {
        let record_offset: usize = 4 + index * 8;
        let platform_id = read_u16(data, record_offset)?;
        let encoding_id = read_u16(data, record_offset + 2)?;
        let offset: usize = read_u32(data, record_offset + 4)? as usize;
        proof {
            if wanted_records(data@, index as nat + 1) is Err {
                wanted_error_stays(data@, index as nat + 1, num_tables as nat);
            }
        }
        require(data, offset, 2, "cmap subtable")?;
        let format = read_u16(data, offset)?;
        if cmap_priority(platform_id, encoding_id, format) > 0 {
            records.push(CmapRecord { offset, format });
        }
        index = index + 1;
    }
    Ok(records)
}

/// Appends the records of one format to `ordered`.
fn append_format(records: &Vec<CmapRecord>, format: u16, ordered: &mut Vec<CmapRecord>)
    ensures
        final(ordered)@ == old(ordered)@ + of_format(records@, format),
{
    let mut index: usize = 0;
    proof {
        assert(records@.take(0) =~= Seq::<CmapRecord>::empty());
        assert(ordered@ =~= old(ordered)@ + of_format(records@.take(0), format));
    }
    while index < records.len()
        invariant
            index <= records@.len(),
            ordered@ == old(ordered)@ + of_format(records@.take(index as int), format),
        decreases records@.len() - index,
    {
        let ghost before = ordered@;
        let record = records[index];
        if record.format == format {
            ordered.push(record);
        }
        index = index + 1;
        proof {
            let prefix = records@.take(index as int);
            assert(prefix.drop_last() =~= records@.take(index - 1));
            assert(prefix.last() == record);
            assert(ordered@ =~= old(ordered)@ + of_format(prefix, format));
        }
    }
    assert(records@.take(records@.len() as int) =~= records@);
}

/// The records of one format come from the whole list.
proof fn of_format_sound(records: Seq<CmapRecord>, format: u16, size: nat)
    requires
        records_sound(records, size),
    ensures
        records_sound(of_format(records, format), size),
    decreases records.len(),
{
    if records.len() > 0 {
        assert(records_sound(records.drop_last(), size));
        of_format_sound(records.drop_last(), format, size);
    }
}

/// Reads `cmap`. Format 12 maps come before format 4 maps, which stay as a
/// fallback for fonts whose subtables differ.
pub fn parse_cmap(data: &[u8]) -> (r: Result<Vec<CmapSubtable>, FontError>)
    ensures
        match (r, spec_cmap(data@)) {
            (Ok(cmaps), Ok(expected)) => models(cmaps@) == expected,
            (Err(error), Err(expected)) => error == expected,
            _ => false,
        },
{
    require(data, 0, 4, "cmap table")?;
    if read_u16(data, 0)? != 0 {
        return Err(invalid_data("unsupported cmap version"));
    }
    let num_tables: usize = read_u16(data, 2)? as usize;
    require(data, 4, num_tables * 8, "cmap encoding records")?;
    let records = read_records(data, num_tables)?;
    let mut ordered: Vec<CmapRecord> = Vec::new();
    append_format(&records, 12, &mut ordered);
    append_format(&records, 4, &mut ordered);
    proof {
        assert(ordered@ =~= by_preference(records@));
        of_format_sound(records@, 12, data@.len());
        of_format_sound(records@, 4, data@.len());
        assert(records_sound(ordered@, data@.len()));
    }
    let mut cmaps: Vec<CmapSubtable> = Vec::new();
    let mut index: usize = 0;
    assert(models(cmaps@) =~= Seq::empty());
    while index < ordered.len()
        invariant
            index <= ordered@.len(),
            records_sound(ordered@, data@.len()),
            subtables_upto(data@, ordered@, index as nat) == Ok::<_, FontError>(models(cmaps@)),
            spec_cmap(data@) == (match subtables_upto(data@, ordered@, ordered@.len()) {
                Err(error) => Err::<Seq<CmapModel>, FontError>(error),
                Ok(cmaps) => if cmaps.len() == 0 {
                    Err(FontError::InvalidData("no supported Unicode cmap subtable"))
                } else {
                    Ok(cmaps)
                },
            }),
        decreases ordered@.len() - index,
    {
        let record = ordered[index];
        proof {
            if subtables_upto(data@, ordered@, index as nat + 1) is Err {
                subtables_error_stays(data@, ordered@, index as nat + 1, ordered@.len());
            }
        }
        if index == 0 || record.offset != ordered[index - 1].offset {
            let ghost before = cmaps@;
            let bytes = vstd::slice::slice_subrange(data, record.offset, data.len());
            assert(bytes@ =~= data@.skip(record.offset as int));
            let cmap = if record.format == 4 {
                CmapSubtable::Format4(parse_cmap_format4(bytes)?)
            } else {
                CmapSubtable::Format12(parse_cmap_format12(bytes)?)
            };
            cmaps.push(cmap);
            assert(models(cmaps@) =~= models(before).push(cmap.model()));
        }
        index = index + 1;
    }
    if cmaps.is_empty() {
        return Err(invalid_data("no supported Unicode cmap subtable"));
    }
    Ok(cmaps)
}

/// The first map that knows `codepoint` decides its glyph.
pub open spec fn first_lookup(cmaps: Seq<CmapModel>, codepoint: u32) -> Option<u16>
    decreases cmaps.len(),
{
    if cmaps.len() == 0 {
        None
    } else {
        match cmaps[0].lookup(codepoint) {
            Some(glyph) => Some(glyph),
            None => first_lookup(cmaps.drop_first(), codepoint),
        }
    }
}

/// Asks the maps in their order.
pub fn find_glyph(cmaps: &Vec<CmapSubtable>, codepoint: u32) -> (r: Option<u16>)
    ensures
        r == first_lookup(models(cmaps@), codepoint),
{
    let ghost all = models(cmaps@);
    let mut index: usize = 0;
    assert(all.skip(0) =~= all);
    while index < cmaps.len()
        invariant
            index <= cmaps@.len(),
            all == models(cmaps@),
            first_lookup(all, codepoint) == first_lookup(all.skip(index as int), codepoint),
        decreases cmaps@.len() - index,
    {
        assert(all.skip(index as int).drop_first() =~= all.skip(index + 1));
        assert(all.skip(index as int)[0] == cmaps@[index as int].model());
        if let Some(glyph) = cmaps[index].glyph_index(codepoint) {
            return Some(glyph);
        }
        index = index + 1;
    }
    None
}

// ---------------------------------------------------------------------------
// Preference
// ---------------------------------------------------------------------------

/// No format 12 map stands behind a format 4 map.
pub open spec fn format_12_leads(cmaps: Seq<CmapModel>) -> bool {
    forall|i: int, j: int|
        0 <= i <= j < cmaps.len() && cmaps[j] is Format12 ==> cmaps[i] is Format12
}

proof fn of_format_all(records: Seq<CmapRecord>, format: u16)
    ensures
        forall|i: int|
            0 <= i < of_format(records, format).len() ==> of_format(records, format)[i].format
                == format,
    decreases records.len(),
{
    if records.len() > 0 {
        let before = of_format(records.drop_last(), format);
        of_format_all(records.drop_last(), format);
        assert(forall|i: int| 0 <= i < before.len() ==> before[i].format == format);
    }
}

proof fn subtables_lead(
    data: Seq<u8>,
    records: Seq<CmapRecord>,
    count: nat,
    cmaps: Seq<CmapModel>,
)
    requires
        count <= records.len(),
        forall|i: int| 0 <= i < records.len() ==> records[i].format == 4 || records[i].format == 12,
        forall|i: int, j: int|
            0 <= i <= j < records.len() && records[j].format == 12 ==> records[i].format == 12,
        subtables_upto(data, records, count) == Ok::<_, FontError>(cmaps),
    ensures
        format_12_leads(cmaps),
        count > 0 && records[count - 1].format == 12 ==> forall|i: int|
            0 <= i < cmaps.len() ==> cmaps[i] is Format12,
    decreases count,
{
    if count > 0 {
        subtables_lead(
            data,
            records,
            (count - 1) as nat,
            subtables_upto(data, records, (count - 1) as nat)->Ok_0,
        );
        if records[count - 1].format == 12 && count > 1 {
            assert(records[count - 2].format == 12);
        }
    }
}

/// The maps of a font stand in order of preference: all of format 12, which
/// reach every plane, before all of format 4.
pub proof fn format_12_comes_first(data: Seq<u8>, cmaps: Seq<CmapModel>)
    requires
        spec_cmap(data) == Ok::<_, FontError>(cmaps),
    ensures
        cmaps.len() > 0,
        format_12_leads(cmaps),
{
    let records = wanted_records(data, reader::u16_at(data, 2) as nat)->Ok_0;
    let ordered = by_preference(records);
    of_format_all(records, 12);
    of_format_all(records, 4);
    subtables_lead(data, ordered, ordered.len(), cmaps);
}

/// A code point that some format 12 map knows is answered by a format 12 map,
/// the first that knows it.
pub proof fn format_12_answers_first(cmaps: Seq<CmapModel>, codepoint: u32, index: int) -> (
    answering: int)
    requires
        format_12_leads(cmaps),
        0 <= index < cmaps.len(),
        cmaps[index] is Format12,
        cmaps[index].lookup(codepoint) is Some,
    ensures
        0 <= answering <= index,
        cmaps[answering] is Format12,
        first_lookup(cmaps, codepoint) == cmaps[answering].lookup(codepoint),
        first_lookup(cmaps, codepoint) is Some,
        forall|i: int| 0 <= i < answering ==> (#[trigger] cmaps[i]).lookup(codepoint) is None,
    decreases cmaps.len(),
{
    if cmaps[0].lookup(codepoint) is Some {
        assert(cmaps[index] is Format12);
        assert(cmaps[0] is Format12);
        0
    } else {
        let rest = cmaps.drop_first();
        assert(rest[index - 1] == cmaps[index]);
        assert forall|i: int, j: int|
            0 <= i <= j < rest.len() && rest[j] is Format12 implies rest[i] is Format12 by {
            assert(rest[i] == cmaps[i + 1]);
            assert(rest[j] == cmaps[j + 1]);
        }
        let found = format_12_answers_first(rest, codepoint, index - 1);
        assert forall|i: int| 0 <= i < found + 1 implies (#[trigger] cmaps[i]).lookup(
            codepoint,
        ) is None by {
            if i > 0 {
                assert(rest[i - 1] == cmaps[i]);
            }
        }
        found + 1
    }
}

} // verus!
