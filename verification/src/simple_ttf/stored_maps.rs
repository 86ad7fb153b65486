//! How a font file stores character maps, and that they are read back.

use super::cmap;
use super::cmap::{CmapGroup, CmapModel, CmapRecord};
use super::error::FontError;
use super::reader;
use super::stored;
use vstd::prelude::*;

verus! {

/// A glyph number as the answer of a map: zero stands for no glyph.
pub open spec fn answer(number: int) -> Option<u16> {
    if number == 0 {
        None
    } else {
        Some(number as u16)
    }
}

// ---------------------------------------------------------------------------
// Format 4
// ---------------------------------------------------------------------------

/// A segment of a format 4 map.
pub struct Segment {
    pub first: u16,
    pub last: u16,
    pub delta: i16,
    pub range_offset: u16,
}

/// The data starts with a format 4 map of `length` bytes: all last code points, two
/// bytes of padding, all first code points, all deltas and all range offsets.
pub open spec fn format4_stored(data: Seq<u8>, length: int, segments: Seq<Segment>) -> bool {
    let n = segments.len() as int;
    &&& 0 < n
    &&& 16 + 8 * n <= length < 0x1_0000
    &&& length <= data.len() <= usize::MAX
    &&& stored::stands(data, 2, stored::word(length))
    &&& stored::stands(data, 6, stored::word(2 * n))
    &&& forall|i: int|
        0 <= i < n ==> {
            let segment = #[trigger] segments[i];
            &&& segment.first <= segment.last
            &&& stored::stands(data, 14 + 2 * i, stored::word(segment.last as int))
            &&& stored::stands(data, 16 + 2 * n + 2 * i, stored::word(segment.first as int))
            &&& stored::stands(data, 16 + 4 * n + 2 * i, stored::word(segment.delta as int))
            &&& stored::stands(data, 16 + 6 * n + 2 * i, stored::word(segment.range_offset as int))
        }
    &&& forall|i: int, j: int| 0 <= i < j < n ==> segments[i].last < segments[j].last
}

proof fn stored_segment(data: Seq<u8>, length: int, segments: Seq<Segment>, i: int)
    requires
        format4_stored(data, length, segments),
        0 <= i < segments.len(),
    ensures
        ({
            let n = segments.len() as int;
            let kept = data.take(length);
            &&& cmap::segment_end(data, i) == segments[i].last
            &&& cmap::segment_start(data, n, i) == segments[i].first
            &&& cmap::segment_end(kept, i) == segments[i].last
            &&& cmap::segment_start(kept, n, i) == segments[i].first
            &&& cmap::segment_delta(kept, n, i) == segments[i].delta
            &&& reader::u16_at(kept, cmap::range_offset_at(n, i)) == segments[i].range_offset
        }),
{
    let n = segments.len() as int;
    let segment = segments[i];
    stored::words_are_read(data, 14 + 2 * i, segment.last as int);
    stored::words_are_read(data, 16 + 2 * n + 2 * i, segment.first as int);
    stored::signed_words_are_read(data, 16 + 4 * n + 2 * i, segment.delta as int);
    stored::words_are_read(data, 16 + 6 * n + 2 * i, segment.range_offset as int);
}

/// A stored format 4 map is accepted.
pub proof fn format4_maps_are_read(data: Seq<u8>, length: int, segments: Seq<Segment>)
    requires
        format4_stored(data, length, segments),
    ensures
        cmap::spec_cmap_format4(data) == Ok::<_, FontError>(
            CmapModel::Format4 { data: data.take(length), seg_count: segments.len() },
        ),
{
    let n = segments.len() as int;
    stored::words_are_read(data, 2, length);
    stored::words_are_read(data, 6, 2 * n);
    assert(cmap::segments_valid(data, n)) by {
        assert forall|i: int| 0 <= i < n implies #[trigger] cmap::segment_start(data, n, i)
            <= cmap::segment_end(data, i) by {
            stored_segment(data, length, segments, i);
        }
        assert forall|i: int, j: int| 0 <= i < j < n implies #[trigger] cmap::segment_end(data, i)
            < #[trigger] cmap::segment_end(data, j) by {
            stored_segment(data, length, segments, i);
            stored_segment(data, length, segments, j);
        }
    }
}

proof fn first_segment_decides(
    data: Seq<u8>,
    length: int,
    segments: Seq<Segment>,
    index: int,
    codepoint: u32,
)
    requires
        format4_stored(data, length, segments),
        0 <= index < segments.len(),
        codepoint <= segments[index].last,
        forall|i: int| 0 <= i < index ==> (#[trigger] segments[i]).last < codepoint,
    ensures
        cmap::lookup4(data.take(length), segments.len() as int, codepoint) == (if codepoint
            < segments[index].first {
            None
        } else {
            cmap::segment_glyph(data.take(length), segments.len() as int, index, codepoint)
        }),
{
    let n = segments.len() as int;
    let kept = data.take(length);
    assert forall|i: int| 0 <= i < n implies #[trigger] cmap::segment_end(kept, i)
        == segments[i].last by {
        stored_segment(data, length, segments, i);
    }
    assert(cmap::first_reaching(kept, n, codepoint, index));
    let chosen = choose|s: int| cmap::first_reaching(kept, n, codepoint, s);
    assert(cmap::first_reaching(kept, n, codepoint, chosen));
    assert(chosen == index) by {
        if chosen < index {
            assert(segments[chosen].last < codepoint);
        }
        if index < chosen {
            assert(cmap::segment_end(kept, index) < codepoint);
        }
    }
    stored_segment(data, length, segments, index);
}

proof fn segment_gives(
    data: Seq<u8>,
    length: int,
    segments: Seq<Segment>,
    index: int,
    codepoint: u32,
)
    requires
        format4_stored(data, length, segments),
        0 <= index < segments.len(),
        segments[index].first <= codepoint <= segments[index].last,
    ensures
        ({
            let segment = segments[index];
            let n = segments.len() as int;
            let entry = 16 + 6 * n + 2 * index + segment.range_offset + 2 * (codepoint
                - segment.first);
            let found = cmap::segment_glyph(data.take(length), n, index, codepoint);
            &&& segment.range_offset == 0 ==> found == answer(
                (codepoint + segment.delta) % 0x1_0000,
            )
            &&& segment.range_offset != 0 ==> found == (if entry + 2 > length || reader::u16_at(
                data,
                entry,
            ) == 0 {
                None
            } else {
                answer((reader::u16_at(data, entry) + segment.delta) % 0x1_0000)
            })
        }),
{
    stored_segment(data, length, segments, index);
}

/// The first segment that reaches a code point answers for it. Before its first code
/// point there is no glyph. Without a range offset the glyph number is the code point
/// plus the delta, modulo 65536. With one, it is found in the array behind the segments,
/// as many entries on as the code point lies behind the first; zero and entries outside
/// of the map stand for no glyph, and to any other the delta is added.
pub proof fn segments_answer(
    data: Seq<u8>,
    length: int,
    segments: Seq<Segment>,
    index: int,
    codepoint: u32,
)
    requires
        format4_stored(data, length, segments),
        0 <= index < segments.len(),
        codepoint <= segments[index].last,
        forall|i: int| 0 <= i < index ==> (#[trigger] segments[i]).last < codepoint,
    ensures
        ({
            let segment = segments[index];
            let entry = 16 + 6 * segments.len() + 2 * index + segment.range_offset + 2 * (codepoint
                - segment.first);
            let found = cmap::spec_cmap_format4(data)->Ok_0.lookup(codepoint);
            &&& codepoint < segment.first ==> found is None
            &&& segment.first <= codepoint && segment.range_offset == 0 ==> found == answer(
                (codepoint + segment.delta) % 0x1_0000,
            )
            &&& segment.first <= codepoint && segment.range_offset != 0 ==> found == (if entry + 2
                > length || reader::u16_at(data, entry) == 0 {
                None
            } else {
                answer((reader::u16_at(data, entry) + segment.delta) % 0x1_0000)
            })
        }),
{
    format4_maps_are_read(data, length, segments);
    first_segment_decides(data, length, segments, index, codepoint);
    if segments[index].first <= codepoint {
        segment_gives(data, length, segments, index, codepoint);
    }
}

/// Code points behind the last segment have no glyph, nor those above 65535.
pub proof fn nothing_answers_behind_the_segments(
    data: Seq<u8>,
    length: int,
    segments: Seq<Segment>,
    codepoint: u32,
)
    requires
        format4_stored(data, length, segments),
        forall|i: int| 0 <= i < segments.len() ==> (#[trigger] segments[i]).last < codepoint,
    ensures
        cmap::spec_cmap_format4(data)->Ok_0.lookup(codepoint) is None,
{
    let n = segments.len() as int;
    let kept = data.take(length);
    format4_maps_are_read(data, length, segments);
    assert forall|i: int| 0 <= i < n implies cmap::segment_end(kept, i) == segments[i].last by {
        stored_segment(data, length, segments, i);
    }
    assert forall|s: int| !cmap::first_reaching(kept, n, codepoint, s) by {
        if 0 <= s < n {
            assert(segments[s].last < codepoint);
        }
    }
}

proof fn residues_count_up(low: int, high: int)
    requires
        low < high < low + 0x1_0000,
    ensures
        (high % 0x1_0000 - low % 0x1_0000) % 0x1_0000 == high - low,
        high % 0x1_0000 != low % 0x1_0000,
{
}

/// The number behind the answer of a map: zero for no glyph.
pub open spec fn number_of(found: Option<u16>) -> int {
    match found {
        Some(glyph) => glyph as int,
        None => 0,
    }
}

/// Within a segment without range offset, glyph numbers count up with the code points,
/// modulo 65536: different code points have different glyphs.
pub proof fn segments_count_up(
    data: Seq<u8>,
    length: int,
    segments: Seq<Segment>,
    index: int,
    codepoint: u32,
    later: u32,
)
    requires
        format4_stored(data, length, segments),
        0 <= index < segments.len(),
        segments[index].first <= codepoint < later <= segments[index].last,
        segments[index].range_offset == 0,
        forall|i: int| 0 <= i < index ==> (#[trigger] segments[i]).last < codepoint,
    ensures
        ({
            let map = cmap::spec_cmap_format4(data)->Ok_0;
            &&& (number_of(map.lookup(later)) - number_of(map.lookup(codepoint))) % 0x1_0000 == later
                - codepoint
            &&& map.lookup(codepoint) != map.lookup(later)
        }),
{
    let delta = segments[index].delta as int;
    let map = cmap::spec_cmap_format4(data)->Ok_0;
    assert(number_of(map.lookup(codepoint)) == (codepoint + delta) % 0x1_0000) by {
        segments_answer(data, length, segments, index, codepoint);
    }
    assert(number_of(map.lookup(later)) == (later + delta) % 0x1_0000) by {
        segments_answer(data, length, segments, index, later);
    }
    residues_count_up(codepoint + delta, later + delta);
}

// ---------------------------------------------------------------------------
// Format 12
// ---------------------------------------------------------------------------

/// The data starts with a format 12 map of `length` bytes.
pub open spec fn format12_stored(data: Seq<u8>, length: int, groups: Seq<CmapGroup>) -> bool {
    &&& 16 + 12 * groups.len() <= length < 0x1_0000_0000
    &&& length <= data.len() <= usize::MAX
    &&& stored::stands(data, 4, stored::long(length))
    &&& stored::stands(data, 12, stored::long(groups.len() as int))
    &&& forall|i: int|
        0 <= i < groups.len() ==> {
            let group = #[trigger] groups[i];
            &&& group.start_char_code <= group.end_char_code <= 0x10_ffff
            &&& stored::stands(data, 16 + 12 * i, stored::long(group.start_char_code as int))
            &&& stored::stands(data, 20 + 12 * i, stored::long(group.end_char_code as int))
            &&& stored::stands(data, 24 + 12 * i, stored::long(group.start_glyph_id as int))
        }
    &&& forall|i: int, j: int|
        0 <= i < j < groups.len() ==> groups[i].end_char_code < groups[j].start_char_code
}

/// A stored format 12 map is read back.
pub proof fn format12_maps_are_read(data: Seq<u8>, length: int, groups: Seq<CmapGroup>)
    requires
        format12_stored(data, length, groups),
    ensures
        cmap::spec_cmap_format12(data) == Ok::<_, FontError>(CmapModel::Format12 { groups }),
{
    stored::longs_are_read(data, 4, length);
    stored::longs_are_read(data, 12, groups.len() as int);
    let read = Seq::new(groups.len(), |index: int| cmap::group_at(data, index));
    assert forall|i: int| 0 <= i < groups.len() implies #[trigger] read[i] == groups[i] by {
        let group = groups[i];
        stored::longs_are_read(data, 16 + 12 * i, group.start_char_code as int);
        stored::longs_are_read(data, 20 + 12 * i, group.end_char_code as int);
        stored::longs_are_read(data, 24 + 12 * i, group.start_glyph_id as int);
    }
    assert(read =~= groups);
}

/// The group that covers a code point answers for it: its first glyph, and as many on as
/// the code point lies behind the first. Glyph zero and numbers above 65535 stand for no
/// glyph, and so do code points in no group.
pub proof fn groups_answer(data: Seq<u8>, length: int, groups: Seq<CmapGroup>, codepoint: u32)
    requires
        format12_stored(data, length, groups),
    ensures
        ({
            let map = cmap::spec_cmap_format12(data)->Ok_0;
            &&& forall|i: int|
                0 <= i < groups.len() && (#[trigger] groups[i]).start_char_code <= codepoint
                    <= groups[i].end_char_code ==> {
                    let number = groups[i].start_glyph_id + codepoint - groups[i].start_char_code;
                    map.lookup(codepoint) == if number > 0xffff {
                        None
                    } else {
                        answer(number)
                    }
                }
            &&& (forall|i: int|
                0 <= i < groups.len() ==> codepoint < (#[trigger] groups[i]).start_char_code
                    || groups[i].end_char_code < codepoint) ==> map.lookup(codepoint) is None
        }),
{
    format12_maps_are_read(data, length, groups);
    assert forall|i: int|
        0 <= i < groups.len() && (#[trigger] groups[i]).start_char_code <= codepoint
            <= groups[i].end_char_code implies cmap::lookup12(groups, codepoint)
        == cmap::group_glyph(groups[i], codepoint) by {
        assert(groups[i].covers(codepoint));
        let chosen = choose|k: int|
            0 <= k < groups.len() && (#[trigger] groups[k]).covers(codepoint);
        assert(chosen == i) by {
            if chosen < i {
                assert(groups[chosen].end_char_code < groups[i].start_char_code);
            }
            if i < chosen {
                assert(groups[i].end_char_code < groups[chosen].start_char_code);
            }
        }
    }
}

// ---------------------------------------------------------------------------
// The table
// ---------------------------------------------------------------------------

/// Where the map of an encoding record starts.
pub open spec fn record_offset(data: Seq<u8>, index: int) -> int {
    reader::u32_at(data, 8 + 8 * index) as int
}

/// The format of the map of an encoding record.
pub open spec fn record_format(data: Seq<u8>, index: int) -> u16 {
    reader::u16_at(data, record_offset(data, index))
}

/// The record is for Unicode, by its platform and encoding, and of a known format.
pub open spec fn record_usable(data: Seq<u8>, index: int) -> bool {
    let platform = reader::u16_at(data, 4 + 8 * index);
    let encoding = reader::u16_at(data, 6 + 8 * index);
    let format = record_format(data, index);
    (platform == 0 || platform == 3 && encoding == 1 || platform == 3 && encoding == 10) && (format
        == 4 || format == 12)
}

/// The map of an encoding record.
pub open spec fn record_map(data: Seq<u8>, index: int) -> Result<CmapModel, FontError> {
    let bytes = data.subrange(record_offset(data, index), data.len() as int);
    if record_format(data, index) == 12 {
        cmap::spec_cmap_format12(bytes)
    } else {
        cmap::spec_cmap_format4(bytes)
    }
}

spec fn usable_before(data: Seq<u8>, count: nat) -> nat
    decreases count,
{
    if count == 0 {
        0
    } else {
        usable_before(data, (count - 1) as nat) + if record_usable(data, count - 1) {
            1nat
        } else {
            0
        }
    }
}

proof fn usable_grows(data: Seq<u8>, low: nat, high: nat)
    requires
        low <= high,
    ensures
        usable_before(data, low) <= usable_before(data, high),
    decreases high,
{
    if low < high {
        usable_grows(data, low, (high - 1) as nat);
    }
}

spec fn read_as(data: Seq<u8>, record: CmapRecord, index: int) -> bool {
    &&& record.offset == record_offset(data, index)
    &&& record.format == record_format(data, index)
    &&& record.offset + 2 <= data.len()
}

proof fn wanted_are_usable(data: Seq<u8>, count: nat, records: Seq<CmapRecord>)
    requires
        cmap::wanted_records(data, count) == Ok::<_, FontError>(records),
        data.len() <= usize::MAX,
    ensures
        records.len() == usable_before(data, count),
        forall|i: int|
            0 <= i < count && record_usable(data, i) ==> read_as(
                data,
                records[usable_before(data, i as nat) as int],
                i,
            ) && #[trigger] usable_before(data, i as nat) < records.len(),
    decreases count,
{
    if count > 0 {
        let before = (count - 1) as nat;
        let earlier = cmap::wanted_records(data, before)->Ok_0;
        wanted_are_usable(data, before, earlier);
        assert(4 + before * 8 + 4 == 8 + 8 * before);
        assert forall|i: int| 0 <= i < count && record_usable(data, i) implies read_as(
            data,
            records[usable_before(data, i as nat) as int],
            i,
        ) && #[trigger] usable_before(data, i as nat) < records.len() by {
            usable_grows(data, (i + 1) as nat, count);
            if i < before {
                usable_grows(data, (i + 1) as nat, before);
            }
        }
    }
}

proof fn wanted_come_from_records(
    data: Seq<u8>,
    count: nat,
    records: Seq<CmapRecord>,
    place: int,
) -> (index: int)
    requires
        cmap::wanted_records(data, count) == Ok::<_, FontError>(records),
        0 <= place < records.len(),
        data.len() <= usize::MAX,
    ensures
        0 <= index < count,
        record_usable(data, index),
        read_as(data, records[place], index),
    decreases count,
{
    let before = (count - 1) as nat;
    let earlier = cmap::wanted_records(data, before)->Ok_0;
    if place < earlier.len() {
        wanted_come_from_records(data, before, earlier, place)
    } else {
        before as int
    }
}

spec fn like_before(records: Seq<CmapRecord>, format: u16, count: nat) -> nat
    decreases count,
{
    if count == 0 {
        0
    } else {
        like_before(records, format, (count - 1) as nat) + if records[count - 1].format == format {
            1nat
        } else {
            0
        }
    }
}

proof fn like_grows(records: Seq<CmapRecord>, format: u16, low: nat, high: nat)
    requires
        low <= high,
    ensures
        like_before(records, format, low) <= like_before(records, format, high),
    decreases high,
{
    if low < high {
        like_grows(records, format, low, (high - 1) as nat);
    }
}

proof fn like_in_prefix(records: Seq<CmapRecord>, format: u16, count: nat)
    requires
        count < records.len(),
    ensures
        like_before(records.drop_last(), format, count) == like_before(records, format, count),
    decreases count,
{
    if count > 0 {
        like_in_prefix(records, format, (count - 1) as nat);
    }
}

proof fn of_format_keeps(records: Seq<CmapRecord>, format: u16)
    ensures
        cmap::of_format(records, format).len() == like_before(records, format, records.len()),
        forall|i: int|
            0 <= i < records.len() && (#[trigger] records[i]).format == format
                ==> like_before(records, format, i as nat) < cmap::of_format(records, format).len()
                && cmap::of_format(records, format)[like_before(
                records,
                format,
                i as nat,
            ) as int] == records[i],
    decreases records.len(),
{
    if records.len() > 0 {
        let earlier = records.drop_last();
        of_format_keeps(earlier, format);
        if earlier.len() > 0 {
            like_in_prefix(records, format, (earlier.len() - 1) as nat);
        }
        assert(like_before(earlier, format, earlier.len()) == like_before(
            records,
            format,
            earlier.len(),
        ));
        assert forall|i: int|
            0 <= i < records.len() && (#[trigger] records[i]).format == format implies like_before(
            records,
            format,
            i as nat,
        ) < cmap::of_format(records, format).len() && cmap::of_format(records, format)[like_before(
            records,
            format,
            i as nat,
        ) as int] == records[i] by {
            if i < earlier.len() {
                like_in_prefix(records, format, i as nat);
                assert(earlier[i] == records[i]);
                like_grows(records, format, (i + 1) as nat, earlier.len());
            }
        }
    }
}

proof fn of_format_comes_from(records: Seq<CmapRecord>, format: u16, place: int) -> (index: int)
    requires
        0 <= place < cmap::of_format(records, format).len(),
    ensures
        0 <= index < records.len(),
        cmap::of_format(records, format)[place] == records[index],
    decreases records.len(),
{
    let earlier = records.drop_last();
    if place < cmap::of_format(earlier, format).len() {
        of_format_comes_from(earlier, format, place)
    } else {
        records.len() - 1
    }
}

spec fn maps_before(records: Seq<CmapRecord>, count: nat) -> nat
    decreases count,
{
    if count == 0 {
        0
    } else {
        maps_before(records, (count - 1) as nat) + if count >= 2 && records[count - 1].offset
            == records[count - 2].offset {
            0nat
        } else {
            1
        }
    }
}

proof fn maps_grow(records: Seq<CmapRecord>, low: nat, high: nat)
    requires
        low <= high,
    ensures
        maps_before(records, low) <= maps_before(records, high),
        0 < low ==> 0 < maps_before(records, low),
    decreases high,
{
    if low < high {
        maps_grow(records, low, (high - 1) as nat);
    } else if low > 1 {
        maps_grow(records, (low - 1) as nat, (low - 1) as nat);
    }
}

/// Each record says the format that stands at its offset.
spec fn formats_agree(data: Seq<u8>, records: Seq<CmapRecord>) -> bool {
    forall|i: int|
        0 <= i < records.len() ==> (#[trigger] records[i]).format == reader::u16_at(
            data,
            records[i].offset as int,
        )
}

#[verifier::rlimit(40)]
proof fn subtables_keep(
    data: Seq<u8>,
    records: Seq<CmapRecord>,
    count: nat,
    cmaps: Seq<CmapModel>,
)
    requires
        count <= records.len(),
        formats_agree(data, records),
        cmap::subtables_upto(data, records, count) == Ok::<_, FontError>(cmaps),
    ensures
        cmaps.len() == maps_before(records, count),
        forall|i: int|
            0 <= i < count ==> Ok::<_, FontError>(cmaps[maps_before(records, (i + 1) as nat) - 1])
                == cmap::subtable_at(data, #[trigger] records[i]),
    decreases count,
{
    if count > 0 {
        let before = (count - 1) as nat;
        let earlier = cmap::subtables_upto(data, records, before)->Ok_0;
        subtables_keep(data, records, before, earlier);
        assert forall|i: int| 0 <= i < count implies Ok::<_, FontError>(
            cmaps[maps_before(records, (i + 1) as nat) - 1],
        ) == cmap::subtable_at(data, #[trigger] records[i]) by {
            maps_grow(records, (i + 1) as nat, count);
            if i < before {
                maps_grow(records, (i + 1) as nat, before);
            } else if before >= 1 && records[before as int].offset == records[before - 1].offset {
                assert(records[before as int].format == records[before - 1].format);
                assert(records[before - 1] == records[before as int]);
                maps_grow(records, before, before);
            }
        }
    }
}

proof fn subtables_come_from(
    data: Seq<u8>,
    records: Seq<CmapRecord>,
    count: nat,
    cmaps: Seq<CmapModel>,
    place: int,
) -> (index: int)
    requires
        count <= records.len(),
        cmap::subtables_upto(data, records, count) == Ok::<_, FontError>(cmaps),
        0 <= place < cmaps.len(),
    ensures
        0 <= index < count,
        Ok::<_, FontError>(cmaps[place]) == cmap::subtable_at(data, records[index]),
    decreases count,
{
    let before = (count - 1) as nat;
    let earlier = cmap::subtables_upto(data, records, before)->Ok_0;
    if place < earlier.len() {
        subtables_come_from(data, records, before, earlier, place)
    } else {
        before as int
    }
}

proof fn ordered_formats_agree(data: Seq<u8>, count: nat, records: Seq<CmapRecord>)
    requires
        cmap::wanted_records(data, count) == Ok::<_, FontError>(records),
        data.len() <= usize::MAX,
    ensures
        formats_agree(data, records),
        formats_agree(data, cmap::by_preference(records)),
{
    assert forall|i: int| 0 <= i < records.len() implies (#[trigger] records[i]).format
        == reader::u16_at(data, records[i].offset as int) by {
        let index = wanted_come_from_records(data, count, records, i);
    }
    let ordered = cmap::by_preference(records);
    let first = cmap::of_format(records, 12);
    assert forall|i: int| 0 <= i < ordered.len() implies (#[trigger] ordered[i]).format
        == reader::u16_at(data, ordered[i].offset as int) by {
        if i < first.len() {
            let index = of_format_comes_from(records, 12, i);
            assert(ordered[i] == records[index]);
        } else {
            let index = of_format_comes_from(records, 4, i - first.len());
            assert(ordered[i] == records[index]);
        }
    }
}

spec fn place_of(data: Seq<u8>, index: int) -> int {
    let records = cmap::wanted_records(data, reader::u16_at(data, 2) as nat)->Ok_0;
    let ordered = cmap::by_preference(records);
    let wanted = usable_before(data, index as nat);
    let format = record_format(data, index);
    let place = like_before(records, format, wanted) + if format == 12 {
        0
    } else {
        cmap::of_format(records, 12).len() as int
    };
    maps_before(ordered, (place + 1) as nat) - 1
}

proof fn map_at_its_place(data: Seq<u8>, cmaps: Seq<CmapModel>, index: int)
    requires
        cmap::spec_cmap(data) == Ok::<_, FontError>(cmaps),
        data.len() <= usize::MAX,
        0 <= index < reader::u16_at(data, 2),
        record_usable(data, index),
    ensures
        0 <= place_of(data, index) < cmaps.len(),
        Ok::<_, FontError>(cmaps[place_of(data, index)]) == record_map(data, index),
{
    let count = reader::u16_at(data, 2) as nat;
    let records = cmap::wanted_records(data, count)->Ok_0;
    let ordered = cmap::by_preference(records);
    let format = record_format(data, index);
    let wanted = usable_before(data, index as nat) as int;
    let first = cmap::of_format(records, 12);
    wanted_are_usable(data, count, records);
    of_format_keeps(records, 12);
    of_format_keeps(records, 4);
    ordered_formats_agree(data, count, records);
    subtables_keep(data, ordered, ordered.len(), cmaps);
    assert(read_as(data, records[wanted], index));
    let place = like_before(records, format, wanted as nat) + if format == 12 {
        0
    } else {
        first.len() as int
    };
    assert(ordered[place] == records[wanted]);
    maps_grow(ordered, (place + 1) as nat, ordered.len());
    assert(data.skip(record_offset(data, index)) =~= data.subrange(
        record_offset(data, index),
        data.len() as int,
    ));
}

/// Every usable map of a font is kept, and read from where its record points. Maps of
/// one format stay in the order of their records.
pub proof fn usable_maps_are_kept(
    data: Seq<u8>,
    cmaps: Seq<CmapModel>,
    index: int,
    later: int,
) -> (places: (int, int))
    requires
        cmap::spec_cmap(data) == Ok::<_, FontError>(cmaps),
        data.len() <= usize::MAX,
        0 <= index <= later < reader::u16_at(data, 2),
        record_usable(data, index),
        record_usable(data, later),
    ensures
        0 <= places.0 < cmaps.len(),
        0 <= places.1 < cmaps.len(),
        Ok::<_, FontError>(cmaps[places.0]) == record_map(data, index),
        Ok::<_, FontError>(cmaps[places.1]) == record_map(data, later),
        record_format(data, index) == record_format(data, later) ==> places.0 <= places.1,
{
    map_at_its_place(data, cmaps, index);
    map_at_its_place(data, cmaps, later);
    let records = cmap::wanted_records(data, reader::u16_at(data, 2) as nat)->Ok_0;
    let ordered = cmap::by_preference(records);
    let format = record_format(data, index);
    if format == record_format(data, later) {
        let wanted = usable_before(data, index as nat);
        let wanted_later = usable_before(data, later as nat);
        usable_grows(data, index as nat, later as nat);
        like_grows(records, format, wanted, wanted_later);
        let skipped = if format == 12 {
            0
        } else {
            cmap::of_format(records, 12).len() as int
        };
        maps_grow(
            ordered,
            (like_before(records, format, wanted) + skipped + 1) as nat,
            (like_before(records, format, wanted_later) + skipped + 1) as nat,
        );
    }
    (place_of(data, index), place_of(data, later))
}

/// Every map that is kept is that of a usable record.
pub proof fn kept_maps_are_usable(data: Seq<u8>, cmaps: Seq<CmapModel>, place: int) -> (index: int)
    requires
        cmap::spec_cmap(data) == Ok::<_, FontError>(cmaps),
        data.len() <= usize::MAX,
        0 <= place < cmaps.len(),
    ensures
        0 <= index < reader::u16_at(data, 2),
        record_usable(data, index),
        Ok::<_, FontError>(cmaps[place]) == record_map(data, index),
{
    let count = reader::u16_at(data, 2) as nat;
    let records = cmap::wanted_records(data, count)->Ok_0;
    let ordered = cmap::by_preference(records);
    let first = cmap::of_format(records, 12);
    let at = subtables_come_from(data, ordered, ordered.len(), cmaps, place);
    let wanted = if at < first.len() {
        of_format_comes_from(records, 12, at)
    } else {
        of_format_comes_from(records, 4, at - first.len())
    };
    assert(ordered[at] == records[wanted]);
    let index = wanted_come_from_records(data, count, records, wanted);
    assert(data.skip(record_offset(data, index)) =~= data.subrange(
        record_offset(data, index),
        data.len() as int,
    ));
    index
}

/// The first map that knows a code point answers for the font, and where none does there
/// is no answer.
pub proof fn first_maps_answer(cmaps: Seq<CmapModel>, codepoint: u32, index: int)
    requires
        0 <= index <= cmaps.len(),
        forall|i: int| 0 <= i < index ==> (#[trigger] cmaps[i]).lookup(codepoint) is None,
        index < cmaps.len() ==> cmaps[index].lookup(codepoint) is Some,
    ensures
        cmap::first_lookup(cmaps, codepoint) == (if index < cmaps.len() {
            cmaps[index].lookup(codepoint)
        } else {
            None
        }),
    decreases cmaps.len(),
{
    if index > 0 {
        let rest = cmaps.drop_first();
        assert(cmaps[0].lookup(codepoint) is None);
        assert forall|i: int| 0 <= i < index - 1 implies (#[trigger] rest[i]).lookup(
            codepoint,
        ) is None by {
            assert(rest[i] == cmaps[i + 1]);
        }
        first_maps_answer(rest, codepoint, index - 1);
    }
}

} // verus!
