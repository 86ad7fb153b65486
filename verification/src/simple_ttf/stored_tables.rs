//! Where a font file stores its tables and their values, and that they are found there.

use super::cmap;
use super::error::{FontError, RequiredTable};
use super::font;
use super::font::FontModel;
use super::reader;
use super::stored;
use super::tables;
use super::tables::TableRecord;
use vstd::prelude::*;

verus! {

/// The four characters of a tag, each in one byte.
pub open spec fn tag(first: u8, second: u8, third: u8, fourth: u8) -> int {
    first * 0x100_0000 + second * 0x1_0000 + third * 0x100 + fourth
}

/// Each table is found under its own four characters.
pub proof fn tables_have_their_tags()
    ensures
        RequiredTable::Cmap.spec_tag() == tag(0x63, 0x6d, 0x61, 0x70),
        RequiredTable::Glyf.spec_tag() == tag(0x67, 0x6c, 0x79, 0x66),
        RequiredTable::Head.spec_tag() == tag(0x68, 0x65, 0x61, 0x64),
        RequiredTable::Hhea.spec_tag() == tag(0x68, 0x68, 0x65, 0x61),
        RequiredTable::Hmtx.spec_tag() == tag(0x68, 0x6d, 0x74, 0x78),
        RequiredTable::Loca.spec_tag() == tag(0x6c, 0x6f, 0x63, 0x61),
        RequiredTable::Maxp.spec_tag() == tag(0x6d, 0x61, 0x78, 0x70),
{
}

// ---------------------------------------------------------------------------
// The directory
// ---------------------------------------------------------------------------

/// The tag of a directory record.
pub open spec fn entry_tag(data: Seq<u8>, index: int) -> u32 {
    reader::u32_at(data, 12 + 16 * index)
}

/// The directory record lies in the file, and names a place in it.
pub open spec fn entry_fits(data: Seq<u8>, index: int) -> bool {
    reader::u32_at(data, 20 + 16 * index) + reader::u32_at(data, 24 + 16 * index) <= data.len()
}

/// Every record is found under its tag, with its own offset and length, and nothing
/// else is found.
pub proof fn directories_hold_their_records(
    data: Seq<u8>,
    count: nat,
    found: Map<u32, TableRecord>,
)
    requires
        tables::directory_upto(data, count) == Ok::<_, FontError>(found),
    ensures
        forall|i: int|
            0 <= i < count ==> {
                let key = #[trigger] entry_tag(data, i);
                &&& found.contains_key(key)
                &&& found[key].offset == reader::u32_at(data, 20 + 16 * i)
                &&& found[key].length == reader::u32_at(data, 24 + 16 * i)
                &&& entry_fits(data, i)
            },
        forall|i: int, j: int|
            0 <= i < j < count ==> #[trigger] entry_tag(data, i) != #[trigger] entry_tag(data, j),
        forall|key: u32| #[trigger]
            found.contains_key(key) ==> exists|i: int|
                0 <= i < count && #[trigger] entry_tag(data, i) == key,
    decreases count,
{
    if count > 0 {
        let index = count - 1;
        let earlier = tables::directory_upto(data, index as nat)->Ok_0;
        directories_hold_their_records(data, index as nat, earlier);
        assert(12 + index * 16 + 8 == 20 + 16 * index);
        assert(12 + index * 16 + 12 == 24 + 16 * index);
        assert(found == earlier.insert(entry_tag(data, index), found[entry_tag(data, index)]));
        assert forall|key: u32| #[trigger] found.contains_key(key) implies exists|i: int|
            0 <= i < count && #[trigger] entry_tag(data, i) == key by {
            if key == entry_tag(data, index) {
                assert(entry_tag(data, index) == key);
            } else {
                assert(earlier.contains_key(key));
                let i = choose|i: int| 0 <= i < index && #[trigger] entry_tag(data, i) == key;
                assert(entry_tag(data, i) == key);
            }
        }
    }
}

/// Directories are accepted only of files with TrueType outlines, and only if every
/// record names a place in the file and no tag occurs twice.
pub proof fn directories_are_accepted(data: Seq<u8>)
    requires
        data.len() <= usize::MAX,
    ensures
        ({
            let count = reader::u16_at(data, 4) as int;
            tables::spec_table_directory(data) is Ok <==> {
                &&& data.len() >= 12 + 16 * count
                &&& data.len() >= 12
                &&& reader::u32_at(data, 0) == 0x0001_0000 || reader::u32_at(data, 0) == tag(
                    0x74,
                    0x72,
                    0x75,
                    0x65,
                )
                &&& forall|i: int| 0 <= i < count ==> #[trigger] entry_fits(data, i)
                &&& forall|i: int, j: int|
                    0 <= i < j < count ==> #[trigger] entry_tag(data, i) != #[trigger] entry_tag(
                        data,
                        j,
                    )
            }
        }),
{
    let count = reader::u16_at(data, 4) as nat;
    if tables::directory_upto(data, count) is Ok {
        let found = tables::directory_upto(data, count)->Ok_0;
        directories_hold_their_records(data, count, found);
        assert forall|i: int| 0 <= i < count implies #[trigger] entry_fits(data, i) by {
            assert(found.contains_key(entry_tag(data, i)));
        }
    } else if (forall|i: int| 0 <= i < count ==> #[trigger] entry_fits(data, i)) && (forall|
        i: int,
        j: int,
    |
        0 <= i < j < count ==> #[trigger] entry_tag(data, i) != #[trigger] entry_tag(data, j)) {
        sound_directories_are_accepted(data, count);
    }
}

proof fn sound_directories_are_accepted(data: Seq<u8>, count: nat)
    requires
        data.len() <= usize::MAX,
        forall|i: int| 0 <= i < count ==> #[trigger] entry_fits(data, i),
        forall|i: int, j: int|
            0 <= i < j < count ==> #[trigger] entry_tag(data, i) != #[trigger] entry_tag(data, j),
    ensures
        tables::directory_upto(data, count) is Ok,
    decreases count,
{
    if count > 0 {
        let index = count - 1;
        sound_directories_are_accepted(data, index as nat);
        let earlier = tables::directory_upto(data, index as nat)->Ok_0;
        directories_hold_their_records(data, index as nat, earlier);
        assert(entry_fits(data, index));
        assert(12 + index * 16 + 8 == 20 + 16 * index);
        assert(12 + index * 16 + 12 == 24 + 16 * index);
        if earlier.contains_key(entry_tag(data, index)) {
            let i = choose|i: int|
                0 <= i < index && #[trigger] entry_tag(data, i) == entry_tag(data, index);
            assert(entry_tag(data, i) != entry_tag(data, index));
        }
    }
}

// ---------------------------------------------------------------------------
// Tables of fixed layout
// ---------------------------------------------------------------------------

/// What `head` stores is read from its place, and tables with other magic numbers, em
/// sizes or location formats are refused.
pub proof fn head_tables_are_read(data: Seq<u8>)
    requires
        data.len() <= usize::MAX,
    ensures
        tables::spec_head(data) is Ok <==> data.len() >= 54 && reader::u32_at(data, 12)
            == 0x5f0f_3cf5 && 16 <= reader::u16_at(data, 18) <= 16384 && 0 <= reader::i16_at(
            data,
            50,
        ) <= 1,
        tables::spec_head(data) matches Ok(head) ==> head.units_per_em == reader::u16_at(data, 18)
            && head.index_to_loc_format == reader::i16_at(data, 50),
{
}

/// What `maxp` stores is read from its place, and a font without glyphs is refused.
pub proof fn maxp_tables_are_read(data: Seq<u8>)
    requires
        data.len() <= usize::MAX,
    ensures
        tables::spec_maxp(data) is Ok <==> data.len() >= 6 && reader::u16_at(data, 4) > 0,
        tables::spec_maxp(data) matches Ok(maxp) ==> maxp.version == reader::u32_at(data, 0)
            && maxp.num_glyphs == reader::u16_at(data, 4),
{
}

/// What `hhea` stores is read from its place, and a font without metrics is refused.
pub proof fn hhea_tables_are_read(data: Seq<u8>)
    requires
        data.len() <= usize::MAX,
    ensures
        tables::spec_hhea(data) is Ok <==> data.len() >= 36 && reader::u16_at(data, 34) > 0,
        tables::spec_hhea(data) matches Ok(hhea) ==> {
            &&& hhea.ascender == reader::i16_at(data, 4)
            &&& hhea.descender == reader::i16_at(data, 6)
            &&& hhea.line_gap == reader::i16_at(data, 8)
            &&& hhea.number_of_h_metrics == reader::u16_at(data, 34)
        },
{
}

// ---------------------------------------------------------------------------
// Tables with an entry per glyph
// ---------------------------------------------------------------------------

/// Glyph locations are stored in halves, two bytes each, or whole, four bytes each.
/// There is one for every glyph, and one for the end of the last.
pub proof fn locations_are_read(
    data: Seq<u8>,
    format: i16,
    num_glyphs: u16,
    locations: Seq<int>,
)
    requires
        data.len() <= usize::MAX,
        locations.len() == num_glyphs + 1,
        format == 0 ==> forall|i: int|
            0 <= i <= num_glyphs ==> #[trigger] locations[i] % 2 == 0 && 0 <= locations[i]
                < 0x2_0000 && stored::stands(data, 2 * i, stored::word(locations[i] / 2)),
        format != 0 ==> forall|i: int|
            0 <= i <= num_glyphs ==> 0 <= #[trigger] locations[i] < 0x1_0000_0000
                && stored::stands(data, 4 * i, stored::long(locations[i])),
    ensures
        tables::spec_loca(data, format, num_glyphs) matches Ok(offsets) && offsets.len()
            == num_glyphs + 1 && forall|i: int|
            0 <= i <= num_glyphs ==> #[trigger] offsets[i] == locations[i],
{
    let last = num_glyphs as int;
    if format == 0 {
        assert(stored::stands(data, 2 * last, stored::word(locations[last] / 2)));
        assert((num_glyphs + 1) * tables::loca_entry_size(format) == 2 * last + 2);
    } else {
        assert(stored::stands(data, 4 * last, stored::long(locations[last])));
        assert((num_glyphs + 1) * tables::loca_entry_size(format) == 4 * last + 4);
    }
    let offsets = tables::spec_loca(data, format, num_glyphs)->Ok_0;
    assert forall|i: int| 0 <= i <= num_glyphs implies #[trigger] offsets[i] == locations[i] by {
        if format == 0 {
            assert(stored::stands(data, 2 * i, stored::word(locations[i] / 2)));
            stored::words_are_read(data, 2 * i, locations[i] / 2);
        } else {
            assert(stored::stands(data, 4 * i, stored::long(locations[i])));
            stored::longs_are_read(data, 4 * i, locations[i]);
        }
    }
}

/// Glyph locations are accepted exactly if each is at or behind the one before and all lie
/// inside the outline table.
pub proof fn locations_are_judged(offsets: Seq<u32>, length: int)
    ensures
        tables::spec_validate_loca(offsets, length) is Ok <==> (forall|i: int, j: int|
            0 <= i < j < offsets.len() ==> offsets[i] <= offsets[j]) && (forall|i: int|
            0 <= i < offsets.len() ==> #[trigger] offsets[i] <= length),
{
    if tables::loca_ordered(offsets) && offsets.len() > 0 {
        assert(offsets.last() == offsets[offsets.len() - 1]);
    }
}

/// The first glyphs store a width and a side bearing each; those behind them store a side
/// bearing only and have the width of the last full record.
pub proof fn metrics_are_read(
    data: Seq<u8>,
    num_glyphs: u16,
    full: u16,
    widths: Seq<u16>,
    bearings: Seq<i16>,
)
    requires
        data.len() <= usize::MAX,
        0 < full <= num_glyphs,
        widths.len() == full,
        bearings.len() == num_glyphs,
        data.len() >= 4 * full + 2 * (num_glyphs - full),
        forall|i: int|
            0 <= i < full ==> stored::stands(data, 4 * i, stored::word(#[trigger] widths[i] as int))
                && stored::stands(data, 4 * i + 2, stored::word(bearings[i] as int)),
        forall|i: int|
            full <= i < num_glyphs ==> stored::stands(
                data,
                4 * full + 2 * (i - full),
                stored::word(#[trigger] bearings[i] as int),
            ),
    ensures
        tables::spec_hmtx(data, num_glyphs, full) matches Ok(metrics) && metrics.len() == num_glyphs
            && forall|i: int|
            0 <= i < num_glyphs ==> (#[trigger] metrics[i]).left_side_bearing == bearings[i]
                && metrics[i].advance_width == widths[if i < full {
                i
            } else {
                full - 1
            }],
{
    let metrics = tables::spec_hmtx(data, num_glyphs, full)->Ok_0;
    assert forall|i: int| 0 <= i < num_glyphs implies (#[trigger] metrics[i]).left_side_bearing
        == bearings[i] && metrics[i].advance_width == widths[if i < full {
        i
    } else {
        full - 1
    }] by {
        if i < full {
            stored::words_are_read(data, 4 * i, widths[i] as int);
            stored::signed_words_are_read(data, 4 * i + 2, bearings[i] as int);
        } else {
            stored::words_are_read(data, 4 * (full - 1), widths[full - 1] as int);
            stored::signed_words_are_read(
                data,
                4 * full + 2 * (i - full),
                bearings[i] as int,
            );
        }
    }
}

// ---------------------------------------------------------------------------
// The font
// ---------------------------------------------------------------------------

/// The bytes of the table with the given tag.
pub open spec fn table_bytes(font: FontModel, key: int) -> Seq<u8> {
    let record = font.tables[key as u32];
    font.data.subrange(record.offset as int, record.offset + record.length)
}

/// A font is made of its tables: each part is read from the table with its tag, and
/// every glyph location lies in the outline table.
pub proof fn fonts_are_made_of_their_tables(data: Seq<u8>, read: FontModel)
    requires
        font::spec_font(data) == Ok::<_, FontError>(read),
    ensures
        read.data == data,
        tables::spec_table_directory(data) == Ok::<_, FontError>(read.tables),
        tables::spec_head(table_bytes(read, tag(0x68, 0x65, 0x61, 0x64))) == Ok::<_, FontError>(
            read.head,
        ),
        tables::spec_maxp(table_bytes(read, tag(0x6d, 0x61, 0x78, 0x70))) == Ok::<_, FontError>(
            read.maxp,
        ),
        tables::spec_hhea(table_bytes(read, tag(0x68, 0x68, 0x65, 0x61))) == Ok::<_, FontError>(
            read.hhea,
        ),
        cmap::spec_cmap(table_bytes(read, tag(0x63, 0x6d, 0x61, 0x70))) == Ok::<_, FontError>(
            read.cmaps,
        ),
        tables::spec_loca(
            table_bytes(read, tag(0x6c, 0x6f, 0x63, 0x61)),
            read.head.index_to_loc_format,
            read.maxp.num_glyphs,
        ) == Ok::<_, FontError>(read.glyph_offsets),
        tables::spec_hmtx(
            table_bytes(read, tag(0x68, 0x6d, 0x74, 0x78)),
            read.maxp.num_glyphs,
            read.hhea.number_of_h_metrics,
        ) == Ok::<_, FontError>(read.metrics),
        tables::spec_validate_loca(
            read.glyph_offsets,
            read.tables[tag(0x67, 0x6c, 0x79, 0x66) as u32].length as int,
        ) is Ok,
{
    tables_have_their_tags();
}

/// A glyph lies between its location and the next, counted from the start of the outline
/// table, and has the metrics with its number. There is none at or behind the number of
/// glyphs.
pub proof fn glyphs_lie_at_their_locations(read: FontModel, glyph_id: u16)
    requires
        read.metrics.len() == read.maxp.num_glyphs,
    ensures
        ({
            let start = read.tables[tag(0x67, 0x6c, 0x79, 0x66) as u32].offset;
            if glyph_id < read.maxp.num_glyphs {
                &&& read.glyph_range(glyph_id) matches Some((first, end))
                &&& first == start + read.glyph_offsets[glyph_id as int]
                &&& end == start + read.glyph_offsets[glyph_id + 1]
                &&& read.metrics_of(glyph_id) == Some(read.metrics[glyph_id as int])
            } else {
                &&& read.glyph_range(glyph_id) is None
                &&& read.metrics_of(glyph_id) is None
            }
        }),
{
    tables_have_their_tags();
}

/// A code point has the glyph that its maps answer, if Unicode has the code point and the
/// font has the glyph; otherwise it has glyph zero.
pub proof fn code_points_have_their_glyphs(read: FontModel, codepoint: u32)
    ensures
        ({
            let found = cmap::first_lookup(read.cmaps, codepoint);
            read.glyph_index(codepoint) == if codepoint <= 0x10_ffff && found is Some
                && found->Some_0 < read.maxp.num_glyphs {
                found->Some_0
            } else {
                0
            }
        }),
{
}

} // verus!
