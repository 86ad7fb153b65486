//! What callers get of a stored font: laws of the calls that read, find and load.

use super::cmap;
use super::cmap::{CmapFormat12, CmapFormat4, CmapGroup, CmapSubtable};
use super::component;
use super::component::GlyphComponent;
use super::error::{ErrorKind, FontError};
use super::font;
use super::font::{FontModel, GlyphLoadBudget, TTFParser};
use super::glyph;
use super::glyph::{Glyph, GlyphPoint};
use super::reader;
use super::reader::GlyphReader;
use super::stored;
use super::stored::StoredGlyph;
use super::stored_components;
use super::stored_maps;
use super::stored_maps::Segment;
use super::stored_tables;
use super::tables;
use super::tables::{HeadData, HheaTable, HorizontalMetrics, MaxpTable};
use vstd::prelude::*;

verus! {

// ---------------------------------------------------------------------------
// Reads
// ---------------------------------------------------------------------------

/// A read succeeds exactly if all of its bytes exist, and puts them together with the high
/// byte first.
pub proof fn numbers_are_put_together(
    data: &[u8],
    offset: usize,
    byte: Result<u8, FontError>,
    word: Result<u16, FontError>,
    long: Result<u32, FontError>,
)
    requires
        data@.len() <= usize::MAX,
        call_ensures(reader::read_u8, (data, offset), byte),
        call_ensures(reader::read_u16, (data, offset), word),
        call_ensures(reader::read_u32, (data, offset), long),
    ensures
        byte is Ok <==> offset + 1 <= data@.len(),
        word is Ok <==> offset + 2 <= data@.len(),
        long is Ok <==> offset + 4 <= data@.len(),
        byte matches Ok(value) ==> value == data@[offset as int],
        word matches Ok(value) ==> value == 0x100 * data@[offset as int] + data@[offset + 1],
        long matches Ok(value) ==> value == 0x100_0000 * data@[offset as int] + 0x1_0000
            * data@[offset + 1] + 0x100 * data@[offset + 2] + data@[offset + 3],
{
}

/// Signed reads differ from unsigned ones by 65536, from 32768 on.
pub proof fn signed_numbers_wrap(
    data: &[u8],
    offset: usize,
    word: Result<u16, FontError>,
    signed: Result<i16, FontError>,
)
    requires
        call_ensures(reader::read_u16, (data, offset), word),
        call_ensures(reader::read_i16, (data, offset), signed),
    ensures
        signed is Ok <==> word is Ok,
        word is Ok ==> signed->Ok_0 == word->Ok_0 - if word->Ok_0 < 0x8000 {
            0int
        } else {
            0x1_0000
        },
{
}

/// A range is required to lie inside the data.
pub proof fn ranges_are_required(
    data: &[u8],
    offset: usize,
    length: usize,
    context: &'static str,
    r: Result<(), FontError>,
)
    requires
        data@.len() <= usize::MAX,
        call_ensures(reader::require, (data, offset, length, context), r),
    ensures
        r is Ok <==> offset + length <= data@.len(),
{
}

// ---------------------------------------------------------------------------
// Simple glyphs
// ---------------------------------------------------------------------------

/// The points of the first `count` contours, one contour after the other.
pub open spec fn put_together(contours: Seq<Seq<GlyphPoint>>, count: nat) -> Seq<GlyphPoint>
    decreases count,
{
    if count == 0 {
        Seq::empty()
    } else {
        put_together(contours, (count - 1) as nat) + contours[count - 1]
    }
}

proof fn contours_are_runs(stored: StoredGlyph, contours: Seq<Seq<GlyphPoint>>, count: nat)
    requires
        stored.storable(),
        contours.len() == stored.ends.len(),
        count <= contours.len(),
        forall|c: int|
            0 <= c < contours.len() ==> (#[trigger] contours[c]).len() == stored.ends[c] + 1
                - stored.first_point(c),
        forall|c: int, k: int|
            0 <= c < contours.len() && 0 <= k < contours[c].len() ==> #[trigger] contours[c][k]
                == stored.point(stored.first_point(c) + k),
    ensures
        count > 0 ==> put_together(contours, count).len() == stored.ends[count - 1] + 1,
        forall|p: int|
            0 <= p < put_together(contours, count).len() ==> #[trigger] put_together(
                contours,
                count,
            )[p] == stored.point(p),
    decreases count,
{
    if count > 0 {
        let c = count - 1;
        let before = put_together(contours, c as nat);
        contours_are_runs(stored, contours, c as nat);
        if c > 0 {
            assert(stored.ends[c - 1] < stored.ends[c]);
        }
        assert(before.len() == stored.first_point(c));
        assert forall|p: int| 0 <= p < put_together(contours, count).len() implies #[trigger]
            put_together(contours, count)[p] == stored.point(p) by {
            if p < before.len() {
                assert(put_together(contours, count)[p] == before[p]);
            } else {
                assert(put_together(contours, count)[p] == contours[c][p - before.len()]);
            }
        }
    }
}

spec fn holds_points(stored: StoredGlyph, contours: Seq<Seq<GlyphPoint>>) -> bool {
    &&& contours.len() == stored.ends.len()
    &&& forall|c: int|
        0 <= c < contours.len() ==> (#[trigger] contours[c]).len() == stored.ends[c] + 1
            - stored.first_point(c)
    &&& forall|c: int, k: int|
        0 <= c < contours.len() && 0 <= k < contours[c].len() ==> #[trigger] contours[c][k]
            == stored.point(stored.first_point(c) + k)
}

proof fn models_hold_points(stored: StoredGlyph, data: &[u8], r: Result<Glyph, FontError>)
    requires
        stored.storable(),
        stored.stored_in(data@),
        data@.len() <= usize::MAX,
        call_ensures(glyph::parse_simple_glyph, (data,), r),
    ensures
        r is Ok,
        r->Ok_0.model().bounds == stored.bounds,
        r->Ok_0.model().steps.len() == 0,
        holds_points(stored, r->Ok_0.model().contours),
{
    stored::simple_glyphs_are_read(stored, data@);
}

proof fn models_hold_contours(read: Glyph)
    ensures
        read.model().contours.len() == read.contours@.len(),
        forall|c: int|
            0 <= c < read.contours@.len() ==> #[trigger] read.contours@[c].points@
                == read.model().contours[c],
{
}

/// A stored simple glyph is decoded: its contours, put one after the other, are the stored
/// points in their order, each exactly once, and the k-th point of a contour is the k-th
/// behind the last point of the contour before.
pub proof fn simple_glyphs_are_decoded(
    stored: StoredGlyph,
    data: &[u8],
    r: Result<Glyph, FontError>,
)
    requires
        stored.storable(),
        stored.stored_in(data@),
        data@.len() <= usize::MAX,
        call_ensures(glyph::parse_simple_glyph, (data,), r),
    ensures
        r is Ok,
        ({
            let contours = r->Ok_0.contours@;
            let points = stored.ends.last() + 1;
            &&& r->Ok_0.bounds == stored.bounds
            &&& r->Ok_0.steps@.len() == 0
            &&& contours.len() == stored.ends.len()
            &&& put_together(r->Ok_0.model().contours, contours.len()) =~= Seq::new(
                points as nat,
                |p: int| stored.point(p),
            )
            &&& forall|c: int|
                0 <= c < contours.len() ==> (#[trigger] contours[c]).points@.len() == stored.ends[c]
                    + 1 - stored.first_point(c)
            &&& forall|c: int, k: int|
                0 <= c < contours.len() && 0 <= k < contours[c].points@.len()
                    ==> #[trigger] contours[c].points@[k] == stored.point(
                    stored.first_point(c) + k,
                )
        }),
{
    models_hold_points(stored, data, r);
    let read = r->Ok_0;
    let model = read.model().contours;
    models_hold_contours(read);
    contours_are_runs(stored, model, model.len());
    assert forall|c: int, k: int|
        0 <= c < read.contours@.len() && 0 <= k < read.contours@[c].points@.len() implies #[trigger]
        read.contours@[c].points@[k] == stored.point(stored.first_point(c) + k) by {
        assert(read.contours@[c].points@ == model[c]);
        assert(model[c][k] == stored.point(stored.first_point(c) + k));
    }
    assert forall|c: int| 0 <= c < read.contours@.len() implies (
    #[trigger] read.contours@[c]).points@.len() == stored.ends[c] + 1 - stored.first_point(c) by {
        assert(read.contours@[c].points@ == model[c]);
    }
}

/// Simple glyphs are decoded only if their header, their contour ends and their instructions
/// exist and the ends grow. The bounds and the number of contours stand in the header.
pub proof fn decoded_glyphs_are_sound(data: &[u8], r: Result<Glyph, FontError>)
    requires
        data@.len() <= usize::MAX,
        call_ensures(glyph::parse_simple_glyph, (data,), r),
    ensures
        ({
            let count = reader::i16_at(data@, 0);
            &&& r is Ok ==> data@.len() >= 10 && count >= 0
            &&& r is Ok && count > 0 ==> {
                &&& data@.len() >= 12 + 2 * count
                &&& data@.len() >= 12 + 2 * count + reader::u16_at(data@, 10 + 2 * count)
                &&& forall|i: int, j: int|
                    0 <= i < j < count ==> #[trigger] reader::u16_at(data@, 10 + 2 * i)
                        < #[trigger] reader::u16_at(data@, 10 + 2 * j)
            }
            &&& data@.len() >= 10 && count == 0 ==> r is Ok
            &&& r matches Ok(read) ==> {
                &&& read.contours@.len() == count
                &&& read.steps@.len() == 0
                &&& read.bounds.x_min == reader::i16_at(data@, 2)
                &&& read.bounds.y_min == reader::i16_at(data@, 4)
                &&& read.bounds.x_max == reader::i16_at(data@, 6)
                &&& read.bounds.y_max == reader::i16_at(data@, 8)
            }
        }),
{
    let count = reader::i16_at(data@, 0) as int;
    if r is Ok {
        assert(r->Ok_0.model().contours.len() == count);
        if count > 0 {
            let ends = glyph::contour_ends(data@, count);
            assert forall|i: int, j: int| 0 <= i < j < count implies #[trigger] reader::u16_at(
                data@,
                10 + 2 * i,
            ) < #[trigger] reader::u16_at(data@, 10 + 2 * j) by {
                assert(ends[i] < ends[j]);
            }
        }
    }
}

// ---------------------------------------------------------------------------
// Components
// ---------------------------------------------------------------------------

/// A reader moves behind what it has read, and stays where it is if it cannot read.
pub proof fn readers_move_on(
    bytes: &mut GlyphReader<'_>,
    byte: Result<u8, FontError>,
    words: &mut GlyphReader<'_>,
    word: Result<u16, FontError>,
    signed: &mut GlyphReader<'_>,
    number: Result<i16, FontError>,
    fixed: &mut GlyphReader<'_>,
    fraction: Result<i16, FontError>,
)
    requires
        call_ensures(GlyphReader::u8, (bytes,), byte),
        call_ensures(GlyphReader::u16, (words,), word),
        call_ensures(GlyphReader::i16, (signed,), number),
        call_ensures(GlyphReader::f2dot14, (fixed,), fraction),
    ensures
        byte is Ok ==> byte->Ok_0 == old(bytes).data@[old(bytes).cursor as int],
        word is Ok ==> word->Ok_0 == reader::u16_at(old(words).data@, old(words).cursor as int),
        number is Ok ==> number->Ok_0 == reader::i16_at(
            old(signed).data@,
            old(signed).cursor as int,
        ),
        fraction is Ok ==> fraction->Ok_0 == reader::i16_at(
            old(fixed).data@,
            old(fixed).cursor as int,
        ),
        final(bytes).cursor - old(bytes).cursor == if byte is Ok {
            1int
        } else {
            0
        },
        final(words).cursor - old(words).cursor == if word is Ok {
            2int
        } else {
            0
        },
        final(signed).cursor - old(signed).cursor == if number is Ok {
            2int
        } else {
            0
        },
        final(fixed).cursor - old(fixed).cursor == if fraction is Ok {
            2int
        } else {
            0
        },
        final(bytes).data == old(bytes).data && final(words).data == old(words).data,
        final(signed).data == old(signed).data && final(fixed).data == old(fixed).data,
{
}

/// A stored component is read, and the reader then stands behind it.
pub proof fn components_are_decoded(
    bytes: &mut GlyphReader<'_>,
    part: GlyphComponent,
    r: Result<GlyphComponent, FontError>,
)
    requires
        stored_components::component_storable(part),
        stored::stands(
            old(bytes).data@,
            old(bytes).cursor as int,
            stored_components::component_bytes(part),
        ),
        old(bytes).data@.len() <= usize::MAX,
        call_ensures(GlyphComponent::read, (bytes,), r),
    ensures
        r == Ok::<GlyphComponent, FontError>(part),
        final(bytes).cursor == old(bytes).cursor + stored_components::component_bytes(part).len(),
        final(bytes).data == old(bytes).data,
{
    stored_components::components_are_read(old(bytes).data@, old(bytes).cursor as int, part);
}

/// A placed component comes behind what was placed before it, with all its contours, and its
/// own step is the last: over its own contours, with its own transform.
pub proof fn components_come_behind(
    placed: &mut Glyph,
    child: Option<Glyph>,
    part: GlyphComponent,
    r: Result<(), FontError>,
)
    requires
        call_ensures(component::place_component, (placed, child, part), r),
        child matches Some(other) ==> component::steps_within(
            other.model().steps,
            other.model().contours,
        ),
        r is Ok,
        final(placed).contours@.len() <= usize::MAX,
        old(placed).contours@.len() <= usize::MAX,
    ensures
        ({
            let before = old(placed).model();
            let after = final(placed).model();
            let added = stored_components::child_contours(glyph::optional_model(child));
            let step = after.steps.last();
            &&& after.bounds == before.bounds
            &&& after.contours.len() == before.contours.len() + added.len()
            &&& forall|i: int|
                0 <= i < before.contours.len() ==> #[trigger] after.contours[i]
                    == before.contours[i]
            &&& forall|i: int|
                0 <= i < added.len() ==> after.contours[before.contours.len() + i]
                    == #[trigger] added[i]
            &&& step.start == before.contours.len()
            &&& step.end == after.contours.len()
            &&& step.transform == part.transform
        }),
{
    stored_components::components_are_placed_behind(
        old(placed).model(),
        glyph::optional_model(child),
        part,
        final(placed).model(),
    );
}

// ---------------------------------------------------------------------------
// Character maps
// ---------------------------------------------------------------------------

/// A stored format 4 map is read and asked: the first segment that reaches a code point
/// answers for it, with the code point plus the delta of the segment, modulo 65536.
pub proof fn format4_maps_are_asked(
    data: &[u8],
    length: int,
    segments: Seq<Segment>,
    index: int,
    codepoint: u32,
    map: CmapFormat4,
    r: Option<u16>,
)
    requires
        stored_maps::format4_stored(data@, length, segments),
        0 <= index < segments.len(),
        codepoint <= segments[index].last,
        forall|i: int| 0 <= i < index ==> (#[trigger] segments[i]).last < codepoint,
        call_ensures(cmap::parse_cmap_format4, (data,), Ok::<CmapFormat4, FontError>(map)),
        call_ensures(CmapFormat4::glyph_index, (&map, codepoint), r),
    ensures
        ({
            let segment = segments[index];
            let entry = 16 + 6 * segments.len() + 2 * index + segment.range_offset + 2 * (codepoint
                - segment.first);
            &&& codepoint < segment.first ==> r is None
            &&& segment.first <= codepoint && segment.range_offset == 0
                ==> stored_maps::number_of(r) == (codepoint + segment.delta) % 0x1_0000 && r != Some(
                0u16,
            )
            &&& segment.first <= codepoint && segment.range_offset != 0 && entry + 2 <= length
                && reader::u16_at(data@, entry) != 0 ==> stored_maps::number_of(r) == (
            reader::u16_at(data@, entry) + segment.delta) % 0x1_0000 && r != Some(0u16)
            &&& segment.first <= codepoint && segment.range_offset != 0 && (entry + 2 > length
                || reader::u16_at(data@, entry) == 0) ==> r is None
        }),
{
    stored_maps::segments_answer(data@, length, segments, index, codepoint);
}

/// Within a segment without range offset, the glyphs of consecutive code points are
/// consecutive, modulo 65536, and different code points have different glyphs.
pub proof fn segments_are_asked_in_order(
    data: &[u8],
    length: int,
    segments: Seq<Segment>,
    index: int,
    codepoint: u32,
    later: u32,
    map: CmapFormat4,
    r: Option<u16>,
    next: Option<u16>,
)
    requires
        stored_maps::format4_stored(data@, length, segments),
        0 <= index < segments.len(),
        segments[index].first <= codepoint < later <= segments[index].last,
        segments[index].range_offset == 0,
        forall|i: int| 0 <= i < index ==> (#[trigger] segments[i]).last < codepoint,
        call_ensures(cmap::parse_cmap_format4, (data,), Ok::<CmapFormat4, FontError>(map)),
        call_ensures(CmapFormat4::glyph_index, (&map, codepoint), r),
        call_ensures(CmapFormat4::glyph_index, (&map, later), next),
    ensures
        (stored_maps::number_of(next) - stored_maps::number_of(r)) % 0x1_0000 == later - codepoint,
        r != next,
{
    stored_maps::segments_count_up(data@, length, segments, index, codepoint, later);
}

/// A stored format 12 map is read and asked: the group of a code point answers for it.
pub proof fn format12_maps_are_asked(
    data: &[u8],
    length: int,
    groups: Seq<CmapGroup>,
    index: int,
    codepoint: u32,
    map: CmapFormat12,
    r: Option<u16>,
)
    requires
        stored_maps::format12_stored(data@, length, groups),
        0 <= index < groups.len(),
        groups[index].start_char_code <= codepoint <= groups[index].end_char_code,
        call_ensures(cmap::parse_cmap_format12, (data,), Ok::<CmapFormat12, FontError>(map)),
        call_ensures(CmapFormat12::glyph_index, (&map, codepoint), r),
    ensures
        ({
            let number = groups[index].start_glyph_id + codepoint - groups[index].start_char_code;
            &&& 0 < number <= 0xffff ==> r is Some && r->Some_0 == number
            &&& number == 0 || number > 0xffff ==> r is None
        }),
{
    stored_maps::groups_answer(data@, length, groups, codepoint);
}

/// Format 4 maps are accepted exactly if all their segments exist, run forwards, and end one
/// behind the other.
pub proof fn format4_maps_are_judged(data: &[u8], r: Result<CmapFormat4, FontError>)
    requires
        data@.len() <= usize::MAX,
        call_ensures(cmap::parse_cmap_format4, (data,), r),
    ensures
        ({
            let length = reader::u16_at(data@, 2) as int;
            let double = reader::u16_at(data@, 6) as int;
            r is Ok <==> {
                &&& data@.len() >= 16
                &&& data@.len() >= length
                &&& double > 0
                &&& double % 2 == 0
                &&& 16 + 4 * double <= length
                &&& forall|i: int|
                    0 <= i < double / 2 ==> #[trigger] reader::u16_at(data@, 16 + double + 2 * i)
                        <= reader::u16_at(data@, 14 + 2 * i)
                &&& forall|i: int, j: int|
                    0 <= i < j < double / 2 ==> #[trigger] reader::u16_at(data@, 14 + 2 * i)
                        < #[trigger] reader::u16_at(data@, 14 + 2 * j)
            }
        }),
{
    let double = reader::u16_at(data@, 6) as int;
    let count = double / 2;
    if double % 2 == 0 {
        assert(forall|i: int| #[trigger]
            cmap::segment_start(data@, count, i) == reader::u16_at(data@, 16 + double + 2 * i));
        assert(forall|i: int| #[trigger]
            cmap::segment_end(data@, i) == reader::u16_at(data@, 14 + 2 * i));
        if r is Ok {
            assert forall|i: int| 0 <= i < count implies #[trigger] reader::u16_at(
                data@,
                16 + double + 2 * i,
            ) <= reader::u16_at(data@, 14 + 2 * i) by {
                assert(cmap::segment_start(data@, count, i) <= cmap::segment_end(data@, i));
            }
            assert forall|i: int, j: int| 0 <= i < j < count implies #[trigger] reader::u16_at(
                data@,
                14 + 2 * i,
            ) < #[trigger] reader::u16_at(data@, 14 + 2 * j) by {
                assert(cmap::segment_end(data@, i) < cmap::segment_end(data@, j));
            }
        }
    }
}

/// Format 12 maps are accepted exactly if all their groups exist, run forwards inside
/// Unicode, and start behind the one before.
pub proof fn format12_maps_are_judged(data: &[u8], r: Result<CmapFormat12, FontError>)
    requires
        data@.len() <= usize::MAX,
        call_ensures(cmap::parse_cmap_format12, (data,), r),
    ensures
        ({
            let length = reader::u32_at(data@, 4) as int;
            let count = reader::u32_at(data@, 12) as int;
            r is Ok <==> {
                &&& data@.len() >= 16
                &&& data@.len() >= length
                &&& 16 + 12 * count <= length
                &&& forall|i: int|
                    0 <= i < count ==> #[trigger] reader::u32_at(data@, 16 + 12 * i)
                        <= reader::u32_at(data@, 20 + 12 * i) && reader::u32_at(data@, 20 + 12 * i)
                        <= 0x10_ffff
                &&& forall|i: int, j: int|
                    0 <= i < j < count ==> #[trigger] reader::u32_at(data@, 20 + 12 * i)
                        < #[trigger] reader::u32_at(data@, 16 + 12 * j)
            }
        }),
{
    let count = reader::u32_at(data@, 12) as int;
    let groups = Seq::new(count as nat, |index: int| cmap::group_at(data@, index));
    assert forall|i: int| 0 <= i < count implies (#[trigger] groups[i]).start_char_code
        == reader::u32_at(data@, 16 + 12 * i) && groups[i].end_char_code == reader::u32_at(
        data@,
        20 + 12 * i,
    ) by {}
    if r is Ok {
        assert forall|i: int| 0 <= i < count implies #[trigger] reader::u32_at(data@, 16 + 12 * i)
            <= reader::u32_at(data@, 20 + 12 * i) && reader::u32_at(data@, 20 + 12 * i)
            <= 0x10_ffff by {
            assert(groups[i].start_char_code <= groups[i].end_char_code <= 0x10_ffff);
        }
        assert forall|i: int, j: int| 0 <= i < j < count implies #[trigger] reader::u32_at(
            data@,
            20 + 12 * i,
        ) < #[trigger] reader::u32_at(data@, 16 + 12 * j) by {
            assert(groups[i].end_char_code < groups[j].start_char_code);
        }
    }
}

/// The first map that has a glyph for a code point answers; if none has, there is none.
pub proof fn maps_are_asked_in_order(
    maps: &Vec<CmapSubtable>,
    codepoint: u32,
    answers: Seq<Option<u16>>,
    first: int,
    r: Option<u16>,
)
    requires
        answers.len() == maps@.len(),
        forall|i: int|
            0 <= i < maps@.len() ==> call_ensures(
                CmapSubtable::glyph_index,
                (&maps@[i], codepoint),
                #[trigger] answers[i],
            ),
        0 <= first <= answers.len(),
        forall|i: int| 0 <= i < first ==> (#[trigger] answers[i]) is None,
        first < answers.len() ==> answers[first] is Some,
        call_ensures(cmap::find_glyph, (maps, codepoint), r),
    ensures
        first < answers.len() ==> r == answers[first],
        first == answers.len() ==> r is None,
{
    let models = cmap::models(maps@);
    assert forall|i: int| 0 <= i < first implies (#[trigger] models[i]).lookup(codepoint) is None by {
        assert(answers[i] is None);
    }
    stored_maps::first_maps_answer(models, codepoint, first);
}

// ---------------------------------------------------------------------------
// Fonts
// ---------------------------------------------------------------------------

/// An accepted font gives out what its tables store.
pub proof fn fonts_give_out_their_tables(
    data: Vec<u8>,
    made: TTFParser,
    head: HeadData,
    maxp: MaxpTable,
    hhea: HheaTable,
    em: u16,
    glyphs: u16,
)
    requires
        call_ensures(TTFParser::from_bytes, (data,), Ok::<TTFParser, FontError>(made)),
        call_ensures(TTFParser::head, (&made,), head),
        call_ensures(TTFParser::maxp, (&made,), maxp),
        call_ensures(TTFParser::hhea, (&made,), hhea),
        call_ensures(TTFParser::units_per_em, (&made,), em),
        call_ensures(TTFParser::num_glyphs, (&made,), glyphs),
    ensures
        made@.data == data@,
        tables::spec_table_directory(data@) == Ok::<_, FontError>(made@.tables),
        ({
            let bytes = stored_tables::table_bytes(
                made@,
                stored_tables::tag(0x68, 0x65, 0x61, 0x64),
            );
            em == reader::u16_at(bytes, 18) && head.units_per_em == em && head.index_to_loc_format
                == reader::i16_at(bytes, 50)
        }),
        ({
            let bytes = stored_tables::table_bytes(
                made@,
                stored_tables::tag(0x6d, 0x61, 0x78, 0x70),
            );
            glyphs == reader::u16_at(bytes, 4) && maxp.num_glyphs == glyphs && maxp.version
                == reader::u32_at(bytes, 0)
        }),
        ({
            let bytes = stored_tables::table_bytes(
                made@,
                stored_tables::tag(0x68, 0x68, 0x65, 0x61),
            );
            hhea.ascender == reader::i16_at(bytes, 4) && hhea.descender == reader::i16_at(bytes, 6)
                && hhea.line_gap == reader::i16_at(bytes, 8) && hhea.number_of_h_metrics
                == reader::u16_at(bytes, 34)
        }),
{
    stored_tables::fonts_are_made_of_their_tables(data@, made@);
}

/// A glyph of an accepted font lies in the outline table, from its own location to that of
/// the next glyph, and its width and side bearing stand in the metrics table.
#[verifier::rlimit(40)]
pub proof fn fonts_give_out_their_glyphs(
    data: Vec<u8>,
    made: TTFParser,
    glyph_id: u16,
    range: Option<core::ops::Range<usize>>,
    metrics: Option<HorizontalMetrics>,
)
    requires
        call_ensures(TTFParser::from_bytes, (data,), Ok::<TTFParser, FontError>(made)),
        call_ensures(TTFParser::glyph_range, (&made, glyph_id), range),
        call_ensures(TTFParser::horizontal_metrics, (&made, glyph_id), metrics),
    ensures
        range is Some <==> glyph_id < made@.maxp.num_glyphs,
        metrics is Some <==> glyph_id < made@.maxp.num_glyphs,
        range is Some ==> {
            let start = made@.tables[stored_tables::tag(0x67, 0x6c, 0x79, 0x66) as u32].offset;
            let locations = stored_tables::table_bytes(
                made@,
                stored_tables::tag(0x6c, 0x6f, 0x63, 0x61),
            );
            let g = glyph_id as int;
            if made@.head.index_to_loc_format == 0 {
                range->Some_0.start == start + 2 * reader::u16_at(locations, 2 * g)
                    && range->Some_0.end == start + 2 * reader::u16_at(locations, 2 * g + 2)
            } else {
                range->Some_0.start == start + reader::u32_at(locations, 4 * g)
                    && range->Some_0.end == start + reader::u32_at(locations, 4 * g + 4)
            }
        },
        metrics is Some ==> {
            let bytes = stored_tables::table_bytes(
                made@,
                stored_tables::tag(0x68, 0x6d, 0x74, 0x78),
            );
            let full = made@.hhea.number_of_h_metrics;
            let g = glyph_id as int;
            if g < full {
                metrics->Some_0.advance_width == reader::u16_at(bytes, 4 * g)
                    && metrics->Some_0.left_side_bearing == reader::i16_at(bytes, 4 * g + 2)
            } else {
                metrics->Some_0.advance_width == reader::u16_at(bytes, 4 * full - 4)
                    && metrics->Some_0.left_side_bearing == reader::i16_at(
                    bytes,
                    2 * full + 2 * g,
                )
            }
        },
{
    stored_tables::fonts_are_made_of_their_tables(data@, made@);
    stored_tables::glyphs_lie_at_their_locations(made@, glyph_id);
}

/// A code point has the first glyph that the maps of the font give it; glyph zero if none
/// does, or if the font has no such glyph, or Unicode no such code point.
pub proof fn fonts_find_their_glyphs(
    made: &TTFParser,
    codepoint: u32,
    r: u16,
    maps: &Vec<CmapSubtable>,
    found: Option<u16>,
)
    requires
        made@.cmaps == cmap::models(maps@),
        call_ensures(TTFParser::glyph_index, (made, codepoint), r),
        call_ensures(cmap::find_glyph, (maps, codepoint), found),
    ensures
        codepoint > 0x10_ffff ==> r == 0,
        codepoint <= 0x10_ffff ==> match found {
            Some(glyph_id) => r == glyph_id && glyph_id < made@.maxp.num_glyphs || r == 0
                && glyph_id >= made@.maxp.num_glyphs,
            None => r == 0,
        },
{
}

/// Loading starts with room for 4096 glyphs and 1048576 points. It is refused more than 32
/// glyphs deep, for a glyph that is being loaded, without a visit left, for a glyph that the
/// font does not have, and for a glyph whose header is cut short.
pub proof fn loads_are_limited(
    read: FontModel,
    glyph_id: u16,
    active: Seq<u16>,
    budget: GlyphLoadBudget,
)
    requires
        read.valid(),
    ensures
        font::full_budget().visits == 4096 && font::full_budget().points == 1_048_576,
        ({
            let loaded = font::spec_load(read, glyph_id, active, budget).0;
            let start = read.glyph_offsets[glyph_id as int];
            let end = read.glyph_offsets[glyph_id + 1];
            let possible = active.len() < 32 && !active.contains(glyph_id) && budget.visits > 0
                && glyph_id < read.maxp.num_glyphs;
            &&& !possible ==> loaded is Err && loaded->Err_0.spec_kind() == ErrorKind::InvalidData
            &&& possible && start == end ==> loaded == Ok::<_, FontError>(None::<glyph::GlyphModel>)
            &&& possible && start < end < start + 10 ==> loaded is Err
                && loaded->Err_0.spec_kind() == ErrorKind::UnexpectedEof
        }),
{
}

/// A loaded glyph of an accepted font is what its bytes say: nothing if there are none, and
/// the decoded outline if it is simple and not larger than the limit.
pub proof fn fonts_load_their_simple_glyphs(
    made: &TTFParser,
    glyph_id: u16,
    bytes: &[u8],
    decoded: Result<Glyph, FontError>,
    r: Result<Option<Glyph>, FontError>,
)
    requires
        made@.valid(),
        made@.data.len() <= usize::MAX,
        glyph_id < made@.maxp.num_glyphs,
        bytes@ == made@.data.subrange(
            made@.glyf().offset + made@.glyph_offsets[glyph_id as int],
            made@.glyf().offset + made@.glyph_offsets[glyph_id + 1],
        ),
        call_ensures(glyph::parse_simple_glyph, (bytes,), decoded),
        call_ensures(TTFParser::load_glyph, (made, glyph_id), r),
    ensures
        bytes@.len() == 0 ==> r is Ok && r->Ok_0 is None,
        bytes@.len() >= 10 && reader::i16_at(bytes@, 0) >= 0 && decoded is Ok
            && glyph::point_total(decoded->Ok_0.model().contours) <= 1_048_576 ==> r is Ok
            && r->Ok_0 is Some && r->Ok_0->Some_0.model() == decoded->Ok_0.model(),
        bytes@.len() >= 10 && reader::i16_at(bytes@, 0) >= 0 && (decoded is Err
            || glyph::point_total(decoded->Ok_0.model().contours) > 1_048_576) ==> r is Err,
{
    font::glyph_ranges_adjoin(made@, glyph_id);
}

/// The classes of errors, and the texts that they show.
pub proof fn errors_have_their_class(error: &FontError, kind: ErrorKind, message: String)
    requires
        call_ensures(FontError::kind, (error,), kind),
        call_ensures(FontError::message, (error,), message),
    ensures
        kind is UnexpectedEof <==> *error is UnexpectedEof,
        kind is Unsupported <==> *error is Unsupported,
        *error matches FontError::InvalidData(text) ==> message@ == text@,
        *error matches FontError::Unsupported(text) ==> message@ == text@,
        *error matches FontError::UnexpectedEof(text) ==> message@ == "truncated "@ + text@,
{
}

} // verus!
