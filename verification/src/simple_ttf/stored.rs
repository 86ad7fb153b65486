//! How a font file stores what the library reads.
//!
//! The functions here write; the laws say that reading gives back what was written.

use super::glyph;
use super::glyph::{GlyphBounds, GlyphPoint};
use super::error::FontError;
use super::reader;
use vstd::prelude::*;

verus! {

// ---------------------------------------------------------------------------
// Numbers
// ---------------------------------------------------------------------------

/// A 16-bit number, high byte first. Negative numbers are stored modulo 65536.
pub open spec fn word(value: int) -> Seq<u8> {
    seq![(value / 0x100 % 0x100) as u8, (value % 0x100) as u8]
}

/// A 32-bit number, high byte first.
pub open spec fn long(value: int) -> Seq<u8> {
    seq![
        (value / 0x100_0000 % 0x100) as u8,
        (value / 0x1_0000 % 0x100) as u8,
        (value / 0x100 % 0x100) as u8,
        (value % 0x100) as u8,
    ]
}

/// The bytes stand in the data from `at` on.
pub open spec fn stands(data: Seq<u8>, at: int, bytes: Seq<u8>) -> bool {
    0 <= at && at + bytes.len() <= data.len() && data.subrange(at, at + bytes.len()) == bytes
}

/// Each of the bytes stands in its place.
pub proof fn standing_bytes(data: Seq<u8>, at: int, bytes: Seq<u8>, index: int)
    requires
        stands(data, at, bytes),
        0 <= index < bytes.len(),
    ensures
        data[at + index] == bytes[index],
{
    assert(data.subrange(at, at + bytes.len())[index] == data[at + index]);
}

/// Of two runs of bytes that stand together, each stands by itself.
pub proof fn standing_parts(data: Seq<u8>, at: int, first: Seq<u8>, second: Seq<u8>)
    requires
        stands(data, at, first + second),
    ensures
        stands(data, at, first),
        stands(data, at + first.len(), second),
{
    let all = first + second;
    let found = data.subrange(at, at + all.len());
    assert(data.subrange(at, at + first.len()) =~= first) by {
        assert forall|i: int| 0 <= i < first.len() implies data[at + i] == first[i] by {
            assert(found[i] == all[i]);
        }
    }
    assert(data.subrange(at + first.len(), at + first.len() + second.len()) =~= second) by {
        assert forall|i: int| 0 <= i < second.len() implies data[at + first.len() + i]
            == second[i] by {
            assert(found[first.len() + i] == all[first.len() + i]);
        }
    }
}

/// An unsigned 16-bit number is read back.
pub proof fn words_are_read(data: Seq<u8>, at: int, value: int)
    requires
        stands(data, at, word(value)),
        0 <= value < 0x1_0000,
        data.len() <= usize::MAX,
    ensures
        reader::u16_at(data, at) == value,
        reader::spec_read_u16(data, at) == Ok::<u16, FontError>(value as u16),
{
    standing_bytes(data, at, word(value), 0);
    standing_bytes(data, at, word(value), 1);
}

/// A signed 16-bit number is read back.
pub proof fn signed_words_are_read(data: Seq<u8>, at: int, value: int)
    requires
        stands(data, at, word(value)),
        -0x8000 <= value < 0x8000,
        data.len() <= usize::MAX,
    ensures
        reader::i16_at(data, at) == value,
        reader::spec_read_i16(data, at) == Ok::<i16, FontError>(value as i16),
        reader::signed16(reader::u16_at(data, at)) == value,
{
    standing_bytes(data, at, word(value), 0);
    standing_bytes(data, at, word(value), 1);
}

/// A signed 8-bit number is read back.
pub proof fn signed_bytes_are_read(value: int)
    requires
        -0x80 <= value < 0x80,
    ensures
        reader::signed8((value % 0x100) as u8) == value,
{
}

/// An unsigned 32-bit number is read back.
pub proof fn longs_are_read(data: Seq<u8>, at: int, value: int)
    requires
        stands(data, at, long(value)),
        0 <= value < 0x1_0000_0000,
        data.len() <= usize::MAX,
    ensures
        reader::u32_at(data, at) == value,
        reader::spec_read_u32(data, at) == Ok::<u32, FontError>(value as u32),
{
    standing_bytes(data, at, long(value), 0);
    standing_bytes(data, at, long(value), 1);
    standing_bytes(data, at, long(value), 2);
    standing_bytes(data, at, long(value), 3);
}

// ---------------------------------------------------------------------------
// Simple glyphs
// ---------------------------------------------------------------------------

/// Equal flags in a row, stored once. Bit 3 announces how many more there are.
pub struct FlagRun {
    pub flag: u8,
    pub more: u8,
}

/// The flags of a run.
pub open spec fn run_flags(run: FlagRun) -> Seq<u8> {
    Seq::new(
        if run.flag & 8 != 0 {
            1 + run.more as nat
        } else {
            1
        },
        |i: int| run.flag,
    )
}

/// The bytes of a run.
pub open spec fn run_bytes(run: FlagRun) -> Seq<u8> {
    if run.flag & 8 != 0 {
        seq![run.flag, run.more]
    } else {
        seq![run.flag]
    }
}

/// The flags of all runs.
pub open spec fn all_flags(runs: Seq<FlagRun>) -> Seq<u8>
    decreases runs.len(),
{
    if runs.len() == 0 {
        Seq::empty()
    } else {
        run_flags(runs[0]) + all_flags(runs.drop_first())
    }
}

/// The bytes of all runs.
pub open spec fn flag_bytes(runs: Seq<FlagRun>) -> Seq<u8>
    decreases runs.len(),
{
    if runs.len() == 0 {
        Seq::empty()
    } else {
        run_bytes(runs[0]) + flag_bytes(runs.drop_first())
    }
}

/// Flags are read back from their runs.
pub proof fn flags_are_read(data: Seq<u8>, cursor: int, runs: Seq<FlagRun>, before: Seq<u8>)
    requires
        stands(data, cursor, flag_bytes(runs)),
        data.len() <= usize::MAX,
    ensures
        glyph::flags_from(data, cursor, before, before.len() + all_flags(runs).len()) == Ok::<
            _,
            FontError,
        >((before + all_flags(runs), cursor + flag_bytes(runs).len())),
    decreases runs.len(),
{
    let count = before.len() + all_flags(runs).len();
    if runs.len() == 0 {
        assert(before + all_flags(runs) =~= before);
    } else {
        let run = runs[0];
        let rest = runs.drop_first();
        let after = before + run_flags(run);
        standing_parts(data, cursor, run_bytes(run), flag_bytes(rest));
        standing_bytes(data, cursor, run_bytes(run), 0);
        if run.flag & 8 != 0 {
            standing_bytes(data, cursor, run_bytes(run), 1);
            assert(before.push(run.flag) + Seq::new(run.more as nat, |i: int| run.flag) =~= after);
        } else {
            assert(before.push(run.flag) =~= after);
        }
        flags_are_read(data, cursor + run_bytes(run).len(), rest, after);
        assert(after + all_flags(rest) =~= before + all_flags(runs));
    }
}

/// How far a coordinate lies from the one before it; the first from zero.
pub open spec fn delta_of(positions: Seq<int>, index: int) -> int {
    if index == 0 {
        positions[0]
    } else {
        positions[index] - positions[index - 1]
    }
}

/// The flag allows a delta to be stored: in one byte, whose sign the second bit tells;
/// in no byte, if it is zero; or in two.
pub open spec fn delta_fits(flag: u8, short: u8, same: u8, delta: int) -> bool {
    if flag & short != 0 {
        if flag & same != 0 {
            0 <= delta < 0x100
        } else {
            -0x100 < delta <= 0
        }
    } else if flag & same != 0 {
        delta == 0
    } else {
        -0x8000 <= delta < 0x8000
    }
}

/// The bytes of a delta.
pub open spec fn delta_bytes(flag: u8, short: u8, same: u8, delta: int) -> Seq<u8> {
    if flag & short != 0 {
        seq![
            if delta < 0 {
                (-delta) as u8
            } else {
                delta as u8
            },
        ]
    } else if flag & same != 0 {
        Seq::empty()
    } else {
        word(delta)
    }
}

/// The bytes of the first `count` coordinates along one axis.
pub open spec fn coordinate_bytes(
    flags: Seq<u8>,
    short: u8,
    same: u8,
    positions: Seq<int>,
    count: nat,
) -> Seq<u8>
    decreases count,
{
    if count == 0 {
        Seq::empty()
    } else {
        coordinate_bytes(flags, short, same, positions, (count - 1) as nat) + delta_bytes(
            flags[count - 1],
            short,
            same,
            delta_of(positions, count - 1),
        )
    }
}

/// The coordinates can be stored with these flags.
pub open spec fn coordinates_fit(flags: Seq<u8>, short: u8, same: u8, positions: Seq<int>) -> bool {
    &&& positions.len() == flags.len()
    &&& forall|i: int|
        0 <= i < positions.len() ==> i32::MIN <= #[trigger] positions[i] <= i32::MAX && delta_fits(
            flags[i],
            short,
            same,
            delta_of(positions, i),
        )
}

/// Coordinates are read back.
pub proof fn coordinates_are_read(
    data: Seq<u8>,
    cursor: int,
    flags: Seq<u8>,
    short: u8,
    same: u8,
    positions: Seq<int>,
    overflow: &'static str,
    count: nat,
)
    requires
        count <= flags.len(),
        coordinates_fit(flags, short, same, positions),
        stands(data, cursor, coordinate_bytes(flags, short, same, positions, count)),
        data.len() <= usize::MAX,
    ensures
        ({
            let read = glyph::coordinates_upto(data, cursor, flags, (short, same), overflow, count);
            &&& read matches Ok((values, next))
            &&& values.len() == count
            &&& forall|i: int| 0 <= i < count ==> #[trigger] values[i] == positions[i]
            &&& next == cursor + coordinate_bytes(flags, short, same, positions, count).len()
        }),
    decreases count,
{
    if count > 0 {
        let index = count - 1;
        let earlier = coordinate_bytes(flags, short, same, positions, index as nat);
        let flag = flags[index];
        let delta = delta_of(positions, index);
        let last = delta_bytes(flag, short, same, delta);
        standing_parts(data, cursor, earlier, last);
        coordinates_are_read(
            data,
            cursor,
            flags,
            short,
            same,
            positions,
            overflow,
            index as nat,
        );
        let at = cursor + earlier.len();
        assert(i32::MIN <= positions[index] <= i32::MAX);
        assert(delta_fits(flag, short, same, delta));
        if flag & short != 0 {
            standing_bytes(data, at, last, 0);
        } else if flag & same == 0 {
            signed_words_are_read(data, at, delta);
        }
        assert(glyph::delta_at(data, at, flag, short, same) == Ok::<_, FontError>(
            (delta, at + last.len()),
        ));
        if index > 0 {
            let read = glyph::coordinates_upto(
                data,
                cursor,
                flags,
                (short, same),
                overflow,
                index as nat,
            );
            let (values, next) = read->Ok_0;
            assert(values[index - 1] == positions[index - 1]);
            assert(values.last() == values[index - 1]);
        }
    }
}

/// A simple glyph as its author has it: the points one after the other, the last point
/// of each contour, and the flags as they are to be stored.
pub struct StoredGlyph {
    pub bounds: GlyphBounds,
    pub ends: Seq<u16>,
    pub instructions: Seq<u8>,
    pub runs: Seq<FlagRun>,
    pub xs: Seq<int>,
    pub ys: Seq<int>,
}

impl StoredGlyph {
    /// The contours have points, every point has a flag, and the flags fit the points.
    pub open spec fn storable(self) -> bool {
        let flags = all_flags(self.runs);
        &&& 0 < self.ends.len() < 0x8000
        &&& forall|i: int, j: int| 0 <= i < j < self.ends.len() ==> self.ends[i] < self.ends[j]
        &&& flags.len() == self.ends.last() + 1
        &&& self.instructions.len() < 0x1_0000
        &&& coordinates_fit(flags, 0x02, 0x10, self.xs)
        &&& coordinates_fit(flags, 0x04, 0x20, self.ys)
    }

    /// The bytes of the x coordinates.
    pub open spec fn x_bytes(self) -> Seq<u8> {
        let flags = all_flags(self.runs);
        coordinate_bytes(flags, 0x02, 0x10, self.xs, flags.len())
    }

    /// The bytes of the y coordinates.
    pub open spec fn y_bytes(self) -> Seq<u8> {
        let flags = all_flags(self.runs);
        coordinate_bytes(flags, 0x04, 0x20, self.ys, flags.len())
    }

    /// The data starts with the glyph: the number of contours, the bounds, the ends of
    /// the contours, the instructions, the flags, all x and then all y coordinates.
    pub open spec fn stored_in(self, data: Seq<u8>) -> bool {
        let count = self.ends.len() as int;
        let flags_at = 12 + 2 * count + self.instructions.len();
        let xs_at = flags_at + flag_bytes(self.runs).len();
        let ys_at = xs_at + self.x_bytes().len();
        &&& stands(data, 0, word(count))
        &&& stands(data, 2, word(self.bounds.x_min as int))
        &&& stands(data, 4, word(self.bounds.y_min as int))
        &&& stands(data, 6, word(self.bounds.x_max as int))
        &&& stands(data, 8, word(self.bounds.y_max as int))
        &&& forall|i: int|
            0 <= i < count ==> stands(data, 10 + 2 * i, word(#[trigger] self.ends[i] as int))
        &&& stands(data, 10 + 2 * count, word(self.instructions.len() as int))
        &&& stands(data, 12 + 2 * count, self.instructions)
        &&& stands(data, flags_at, flag_bytes(self.runs))
        &&& stands(data, xs_at, self.x_bytes())
        &&& stands(data, ys_at, self.y_bytes())
    }

    /// The number of the first point of a contour: the one after the last point of the
    /// contour before.
    pub open spec fn first_point(self, contour: int) -> int {
        if contour == 0 {
            0
        } else {
            self.ends[contour - 1] + 1
        }
    }

    /// The point with the given number. Bit 0 of its flag puts it on the curve.
    pub open spec fn point(self, number: int) -> GlyphPoint {
        GlyphPoint {
            x: self.xs[number] as i32,
            y: self.ys[number] as i32,
            on_curve: all_flags(self.runs)[number] & 1 != 0,
        }
    }
}

proof fn stored_ends(stored: StoredGlyph, data: Seq<u8>)
    requires
        stored.storable(),
        stored.stored_in(data),
        data.len() <= usize::MAX,
    ensures
        glyph::contour_ends(data, stored.ends.len() as int) == stored.ends,
        glyph::ends_ordered(stored.ends),
{
    let count = stored.ends.len() as int;
    assert forall|i: int| 0 <= i < count implies reader::u16_at(data, 10 + i * 2)
        == stored.ends[i] by {
        assert(stands(data, 10 + 2 * i, word(stored.ends[i] as int)));
        words_are_read(data, 10 + 2 * i, stored.ends[i] as int);
    }
    assert(glyph::contour_ends(data, count) =~= stored.ends);
}

proof fn stored_header(stored: StoredGlyph, data: Seq<u8>)
    requires
        stored.storable(),
        stored.stored_in(data),
        data.len() <= usize::MAX,
    ensures
        reader::i16_at(data, 0) == stored.ends.len(),
        glyph::bounds_at(data) == stored.bounds,
        reader::spec_read_u16(data, 10 + 2 * stored.ends.len() as int) == Ok::<u16, FontError>(
            stored.instructions.len() as u16,
        ),
{
    signed_words_are_read(data, 0, stored.ends.len() as int);
    signed_words_are_read(data, 2, stored.bounds.x_min as int);
    signed_words_are_read(data, 4, stored.bounds.y_min as int);
    signed_words_are_read(data, 6, stored.bounds.x_max as int);
    signed_words_are_read(data, 8, stored.bounds.y_max as int);
    words_are_read(data, 10 + 2 * stored.ends.len() as int, stored.instructions.len() as int);
}

/// A simple glyph is decoded to what was stored. Its contours, put one after the other,
/// are the stored points in their order, each exactly once: the k-th point of a contour
/// is the k-th behind the last point of the contour before.
#[verifier::rlimit(40)]
pub proof fn simple_glyphs_are_read(stored: StoredGlyph, data: Seq<u8>)
    requires
        stored.storable(),
        stored.stored_in(data),
        data.len() <= usize::MAX,
    ensures
        ({
            let read = glyph::spec_simple_glyph(data);
            &&& read matches Ok(outline)
            &&& outline.bounds == stored.bounds
            &&& outline.steps.len() == 0
            &&& outline.contours.len() == stored.ends.len()
            &&& forall|c: int|
                0 <= c < outline.contours.len() ==> (#[trigger] outline.contours[c]).len()
                    == stored.ends[c] + 1 - stored.first_point(c)
            &&& forall|c: int, k: int|
                0 <= c < outline.contours.len() && 0 <= k < outline.contours[c].len()
                    ==> #[trigger] outline.contours[c][k] == stored.point(
                    stored.first_point(c) + k,
                )
        }),
{
    let flags = all_flags(stored.runs);
    let count = stored.ends.len() as int;
    let flags_at = 12 + 2 * count + stored.instructions.len();
    let xs_at = flags_at + flag_bytes(stored.runs).len();
    let ys_at = xs_at + stored.x_bytes().len();
    let none = Seq::<u8>::empty();
    stored_header(stored, data);
    stored_ends(stored, data);
    flags_are_read(data, flags_at, stored.runs, none);
    assert(none + flags =~= flags);
    let x_error = "glyf x coordinate overflow";
    let y_error = "glyf y coordinate overflow";
    coordinates_are_read(data, xs_at, flags, 0x02, 0x10, stored.xs, x_error, flags.len());
    coordinates_are_read(data, ys_at, flags, 0x04, 0x20, stored.ys, y_error, flags.len());
    let outline = glyph::spec_simple_glyph(data)->Ok_0;
    assert forall|c: int| 0 <= c < count implies (#[trigger] outline.contours[c]).len()
        == stored.ends[c] + 1 - stored.first_point(c) && (forall|k: int|
        0 <= k < outline.contours[c].len() ==> #[trigger] outline.contours[c][k] == stored.point(
            stored.first_point(c) + k,
        )) by {
        if c > 0 {
            assert(stored.ends[c - 1] < stored.ends[c]);
        }
        if c < count - 1 {
            assert(stored.ends[c] < stored.ends[count - 1]);
        }
    }
}

} // verus!
