//! Glyph outlines, and the decoder for simple `glyf` entries.

use super::component::ComponentStep;
use super::error::FontError;
use super::reader;
use super::reader::{invalid_data, read_i16, read_u16, read_u8, require};
use vstd::prelude::*;

verus! {

// Simple-glyph point flags from the OpenType glyf table specification.
pub const ON_CURVE_POINT: u8 = 0x01;

pub const X_SHORT_VECTOR: u8 = 0x02;

pub const Y_SHORT_VECTOR: u8 = 0x04;

pub const REPEAT_FLAG: u8 = 0x08;

pub const X_IS_SAME_OR_POSITIVE_X_SHORT_VECTOR: u8 = 0x10;

pub const Y_IS_SAME_OR_POSITIVE_Y_SHORT_VECTOR: u8 = 0x20;

/// A decoded point of a TrueType contour, in the font units of the simple glyph
/// that stores it.
#[derive(Debug, Clone, Copy, PartialEq, Eq, Structural)]
pub struct GlyphPoint {
    /// Horizontal coordinate, increasing to the right.
    pub x: i32,
    /// Vertical coordinate, increasing upwards.
    pub y: i32,
    /// Whether this is a point on the curve rather than a quadratic control point.
    pub on_curve: bool,
}

/// One closed outline contour in the point order stored by TrueType.
#[derive(Debug, Clone, PartialEq, Eq)]
pub struct Contour {
    /// Explicit points from `glyf`; implied on-curve points are not stored here.
    pub points: Vec<GlyphPoint>,
}

/// Bounding box declared by a glyph, in font units.
#[derive(Debug, Clone, Copy, PartialEq, Eq, Structural)]
pub struct GlyphBounds {
    /// Minimum horizontal coordinate.
    pub x_min: i16,
    /// Minimum vertical coordinate.
    pub y_min: i16,
    /// Maximum horizontal coordinate.
    pub x_max: i16,
    /// Maximum vertical coordinate.
    pub y_max: i16,
}

/// Decoded geometry of a simple or flattened composite TrueType glyph.
#[derive(Debug, Clone, PartialEq, Eq)]
pub struct Glyph {
    /// Bounding box from the glyph header.
    pub bounds: GlyphBounds,
    /// Closed contours that make up the glyph outline. The points of a composite
    /// glyph are those of its simple leaves, before `steps` move them.
    pub contours: Vec<Contour>,
    /// What to do to the contours, first to last, to place the components of a
    /// composite glyph. Empty for a simple glyph.
    pub steps: Vec<ComponentStep>,
}

/// A glyph as a value.
#[verifier::ext_equal]
pub struct GlyphModel {
    pub bounds: GlyphBounds,
    pub contours: Seq<Seq<GlyphPoint>>,
    pub steps: Seq<ComponentStep>,
}

/// The points of each contour.
pub open spec fn contour_points(contours: Seq<Contour>) -> Seq<Seq<GlyphPoint>> {
    contours.map_values(|contour: Contour| contour.points@)
}

/// The number of points on all contours.
pub open spec fn point_total(contours: Seq<Seq<GlyphPoint>>) -> nat
    decreases contours.len(),
{
    if contours.len() == 0 {
        0
    } else {
        point_total(contours.drop_last()) + contours.last().len()
    }
}

impl Glyph {
    /// The glyph as a value.
    pub open spec fn model(self) -> GlyphModel {
        GlyphModel {
            bounds: self.bounds,
            contours: contour_points(self.contours@),
            steps: self.steps@,
        }
    }
}

/// A glyph that may lack an outline, as a value.
pub open spec fn optional_model(glyph: Option<Glyph>) -> Option<GlyphModel> {
    match glyph {
        None => None,
        Some(glyph) => Some(glyph.model()),
    }
}

/// The bounding box in a glyph header.
pub open spec fn bounds_at(data: Seq<u8>) -> GlyphBounds {
    GlyphBounds {
        x_min: reader::i16_at(data, 2),
        y_min: reader::i16_at(data, 4),
        x_max: reader::i16_at(data, 6),
        y_max: reader::i16_at(data, 8),
    }
}

/// The last point of each contour.
pub open spec fn contour_ends(data: Seq<u8>, count: int) -> Seq<u16> {
    Seq::new(count as nat, |index: int| reader::u16_at(data, 10 + index * 2))
}

/// Every contour ends after the one before it.
pub open spec fn ends_ordered(ends: Seq<u16>) -> bool {
    forall|i: int, j: int| 0 <= i < j < ends.len() ==> ends[i] < ends[j]
}

/// Decodes run-length encoded flags until there are `count` of them. Yields the
/// flags and the position after them.
pub open spec fn flags_from(data: Seq<u8>, cursor: int, flags: Seq<u8>, count: nat) -> Result<
    (Seq<u8>, int),
    FontError,
>
    decreases count - flags.len(),
{
    if flags.len() >= count {
        Ok((flags, cursor))
    } else {
        match reader::spec_read_u8(data, cursor) {
            Err(error) => Err(error),
            Ok(flag) => if flag & REPEAT_FLAG == 0 {
                flags_from(data, cursor + 1, flags.push(flag), count)
            } else {
                match reader::spec_read_u8(data, cursor + 1) {
                    Err(error) => Err(error),
                    Ok(repeat) => if flags.len() + 1 + repeat > count {
                        Err(FontError::InvalidData("glyf flag repeat exceeds point count"))
                    } else {
                        flags_from(
                            data,
                            cursor + 2,
                            flags.push(flag) + Seq::new(repeat as nat, |i: int| flag),
                            count,
                        )
                    },
                }
            },
        }
    }
}

/// The coordinate delta of one point, and the position after it.
pub open spec fn delta_at(
    data: Seq<u8>,
    cursor: int,
    flag: u8,
    short_mask: u8,
    same_or_positive_mask: u8,
) -> Result<(int, int), FontError> {
    if flag & short_mask != 0 {
        match reader::spec_read_u8(data, cursor) {
            Err(error) => Err(error),
            Ok(magnitude) => if flag & same_or_positive_mask != 0 {
                Ok((magnitude as int, cursor + 1))
            } else {
                Ok((-magnitude, cursor + 1))
            },
        }
    } else if flag & same_or_positive_mask != 0 {
        Ok((0, cursor))
    } else {
        match reader::spec_read_i16(data, cursor) {
            Err(error) => Err(error),
            Ok(delta) => Ok((delta as int, cursor + 2)),
        }
    }
}

/// The coordinates of the first `count` points along one axis, each the sum of
/// the deltas so far, and the position after the last delta.
pub open spec fn coordinates_upto(
    data: Seq<u8>,
    cursor: int,
    flags: Seq<u8>,
    masks: (u8, u8),
    overflow: &'static str,
    count: nat,
) -> Result<(Seq<i32>, int), FontError>
    decreases count,
{
    if count == 0 {
        Ok((Seq::empty(), cursor))
    } else {
        match coordinates_upto(data, cursor, flags, masks, overflow, (count - 1) as nat) {
            Err(error) => Err(error),
            Ok((values, next)) => match delta_at(data, next, flags[count - 1], masks.0, masks.1) {
                Err(error) => Err(error),
                Ok((delta, after)) => {
                    let previous = if values.len() == 0 {
                        0int
                    } else {
                        values.last() as int
                    };
                    if i32::MIN <= previous + delta <= i32::MAX {
                        Ok((values.push((previous + delta) as i32), after))
                    } else {
                        Err(FontError::InvalidData(overflow))
                    }
                },
            },
        }
    }
}

/// The point that a flag and a pair of coordinates describe.
pub open spec fn point_of(flag: u8, x: i32, y: i32) -> GlyphPoint {
    GlyphPoint { x, y, on_curve: flag & ON_CURVE_POINT != 0 }
}

/// All points of a glyph.
pub open spec fn points_of(flags: Seq<u8>, xs: Seq<i32>, ys: Seq<i32>) -> Seq<GlyphPoint> {
    Seq::new(flags.len(), |i: int| point_of(flags[i], xs[i], ys[i]))
}

/// The first point of a contour.
pub open spec fn contour_start(ends: Seq<u16>, index: int) -> int {
    if index == 0 {
        0
    } else {
        ends[index - 1] + 1
    }
}

/// Cuts the points into contours.
pub open spec fn split_contours(points: Seq<GlyphPoint>, ends: Seq<u16>) -> Seq<Seq<GlyphPoint>> {
    Seq::new(
        ends.len(),
        |index: int| points.subrange(contour_start(ends, index), ends[index] + 1),
    )
}

/// The outline of a simple glyph whose header and contour ends are in order.
/// All x deltas precede all y deltas.
pub open spec fn simple_outline(data: Seq<u8>, ends: Seq<u16>, cursor: int) -> Result<
    Seq<Seq<GlyphPoint>>,
    FontError,
> {
    let count = (ends.last() + 1) as nat;
    match flags_from(data, cursor, Seq::empty(), count) {
        Err(error) => Err(error),
        Ok((flags, x_cursor)) => match coordinates_upto(
            data,
            x_cursor,
            flags,
            (X_SHORT_VECTOR, X_IS_SAME_OR_POSITIVE_X_SHORT_VECTOR),
            "glyf x coordinate overflow",
            count,
        ) {
            Err(error) => Err(error),
            Ok((xs, y_cursor)) => match coordinates_upto(
                data,
                y_cursor,
                flags,
                (Y_SHORT_VECTOR, Y_IS_SAME_OR_POSITIVE_Y_SHORT_VECTOR),
                "glyf y coordinate overflow",
                count,
            ) {
                Err(error) => Err(error),
                Ok((ys, _)) => Ok(split_contours(points_of(flags, xs, ys), ends)),
            },
        },
    }
}

/// A simple glyph.
pub open spec fn spec_simple_glyph(data: Seq<u8>) -> Result<GlyphModel, FontError> {
    match reader::spec_require(data, 0, 10, "glyf header") {
        Err(error) => Err(error),
        Ok(_) => {
            let count = reader::i16_at(data, 0) as int;
            let ends = contour_ends(data, count);
            let instructions_at = 10 + count * 2;
            if count < 0 {
                Err(FontError::InvalidData("composite passed to simple glyph decoder"))
            } else if count == 0 {
                Ok(
                    GlyphModel {
                        bounds: bounds_at(data),
                        contours: Seq::empty(),
                        steps: Seq::empty(),
                    },
                )
            } else {
                match reader::spec_require(data, 10, count * 2, "glyf contour endpoints") {
                    Err(error) => Err(error),
                    Ok(_) => if !ends_ordered(ends) {
                        Err(FontError::InvalidData("glyf contour endpoints are not ordered"))
                    } else {
                        match reader::spec_read_u16(data, instructions_at) {
                            Err(error) => Err(error),
                            Ok(length) => match reader::spec_require(
                                data,
                                instructions_at + 2,
                                length as int,
                                "glyf instructions",
                            ) {
                                Err(error) => Err(error),
                                Ok(_) => match simple_outline(
                                    data,
                                    ends,
                                    instructions_at + 2 + length,
                                ) {
                                    Err(error) => Err(error),
                                    Ok(contours) => Ok(
                                        GlyphModel {
                                            bounds: bounds_at(data),
                                            contours,
                                            steps: Seq::empty(),
                                        },
                                    ),
                                },
                            },
                        }
                    },
                }
            }
        },
    }
}

/// Leaving contours out leaves points out.
pub proof fn point_total_grows(contours: Seq<Seq<GlyphPoint>>, count: int)
    requires
        0 <= count <= contours.len(),
    ensures
        point_total(contours.take(count)) <= point_total(contours),
    decreases contours.len(),
{
    if count == contours.len() {
        assert(contours.take(count) =~= contours);
    } else {
        point_total_grows(contours.drop_last(), count);
        assert(contours.drop_last().take(count) =~= contours.take(count));
    }
}

/// The number of points of two outlines together.
pub proof fn point_total_adds(first: Seq<Seq<GlyphPoint>>, second: Seq<Seq<GlyphPoint>>)
    ensures
        point_total(first + second) == point_total(first) + point_total(second),
    decreases second.len(),
{
    if second.len() == 0 {
        assert(first + second =~= first);
    } else {
        point_total_adds(first, second.drop_last());
        assert((first + second).drop_last() =~= first + second.drop_last());
    }
}

proof fn flags_count(data: Seq<u8>, cursor: int, flags: Seq<u8>, count: nat)
    requires
        flags.len() <= count,
    ensures
        flags_from(data, cursor, flags, count) matches Ok((all, _)) ==> all.len() == count,
    decreases count - flags.len(),
{
    if flags.len() < count {
        if let Ok(flag) = reader::spec_read_u8(data, cursor) {
            if flag & REPEAT_FLAG == 0 {
                flags_count(data, cursor + 1, flags.push(flag), count);
            } else if let Ok(repeat) = reader::spec_read_u8(data, cursor + 1) {
                if flags.len() + 1 + repeat <= count {
                    flags_count(
                        data,
                        cursor + 2,
                        flags.push(flag) + Seq::new(repeat as nat, |i: int| flag),
                        count,
                    );
                }
            }
        }
    }
}

proof fn split_total(points: Seq<GlyphPoint>, ends: Seq<u16>, count: int)
    requires
        0 <= count <= ends.len(),
        ends_ordered(ends),
        ends.len() > 0,
        points.len() == ends.last() + 1,
    ensures
        point_total(split_contours(points, ends).take(count)) == contour_start(ends, count),
    decreases count,
{
    if count > 0 {
        let all = split_contours(points, ends);
        split_total(points, ends, count - 1);
        assert(all.take(count).drop_last() =~= all.take(count - 1));
        assert(ends[count - 1] <= ends.last());
        assert(count > 1 ==> ends[count - 2] < ends[count - 1]);
    }
}

/// A simple glyph has at most as many points as a contour end can number.
pub proof fn simple_glyph_bounded(data: Seq<u8>, glyph: GlyphModel)
    requires
        spec_simple_glyph(data) == Ok::<_, FontError>(glyph),
    ensures
        point_total(glyph.contours) <= 0x1_0000,
{
    let count = reader::i16_at(data, 0) as int;
    if count > 0 {
        let ends = contour_ends(data, count);
        let cursor = 12 + count * 2 + reader::u16_at(data, 10 + count * 2);
        let points = (ends.last() + 1) as nat;
        flags_count(data, cursor, Seq::empty(), points);
        let (flags, x_cursor) = flags_from(data, cursor, Seq::empty(), points)->Ok_0;
        let (xs, y_cursor) = coordinates_upto(
            data,
            x_cursor,
            flags,
            (X_SHORT_VECTOR, X_IS_SAME_OR_POSITIVE_X_SHORT_VECTOR),
            "glyf x coordinate overflow",
            points,
        )->Ok_0;
        let (ys, _) = coordinates_upto(
            data,
            y_cursor,
            flags,
            (Y_SHORT_VECTOR, Y_IS_SAME_OR_POSITIVE_Y_SHORT_VECTOR),
            "glyf y coordinate overflow",
            points,
        )->Ok_0;
        split_total(points_of(flags, xs, ys), ends, count);
        assert(glyph.contours.take(count) =~= glyph.contours);
    }
}

/// Reads the bounding box of a glyph header.
pub fn read_bounds(data: &[u8]) -> (r: Result<GlyphBounds, FontError>)
    requires
        data@.len() >= 10,
    ensures
        r == Ok::<GlyphBounds, FontError>(bounds_at(data@)),
{
    Ok(
        GlyphBounds {
            x_min: read_i16(data, 2)?,
            y_min: read_i16(data, 4)?,
            x_max: read_i16(data, 6)?,
            y_max: read_i16(data, 8)?,
        },
    )
}

/// Reads the contour ends of a simple glyph.
fn read_contour_ends(data: &[u8], count: usize) -> (r: Result<Vec<u16>, FontError>)
    requires
        10 + count * 2 <= data@.len(),
        count <= 0x7fff,
    ensures
        match r {
            Ok(ends) => ends@ == contour_ends(data@, count as int) && ends_ordered(ends@),
            Err(error) => error == FontError::InvalidData("glyf contour endpoints are not ordered")
                && !ends_ordered(contour_ends(data@, count as int)),
        },
{
    let ghost all = contour_ends(data@, count as int);
    let mut ends: Vec<u16> = Vec::with_capacity(count);
    let mut index: usize = 0;
    while index < count
        invariant
            index <= count <= 0x7fff,
            10 + count * 2 <= data@.len(),
            all == contour_ends(data@, count as int),
            ends@ == all.take(index as int),
            ends_ordered(ends@),
        decreases count - index,
    {
        let end = read_u16(data, 10 + index * 2)?;
        assert(end == all[index as int]);
        if index > 0 && ends[index - 1] >= end {
            assert(ends@[index - 1] == all[index - 1]);
            return Err(invalid_data("glyf contour endpoints are not ordered"));
        }
        ends.push(end);
        index = index + 1;
        assert(ends@ =~= all.take(index as int));
    }
    assert(ends@ =~= all);
    Ok(ends)
}

/// Reads the run-length encoded flags of `count` points.
fn read_flags(data: &[u8], start: usize, count: usize) -> (r: Result<(Vec<u8>, usize), FontError>)
    requires
        start <= data@.len(),
        count <= 0x1_0000,
    ensures
        match (r, flags_from(data@, start as int, Seq::empty(), count as nat)) {
            (Ok((flags, cursor)), Ok((expected, next))) => flags@ == expected && cursor == next
                && flags@.len() == count && cursor <= data@.len(),
            (Err(error), Err(expected)) => error == expected,
            _ => false,
        },
{
    let mut flags: Vec<u8> = Vec::with_capacity(count);
    let mut cursor: usize = start;
    while flags.len() < count
        invariant
            count <= 0x1_0000,
            cursor <= data@.len(),
            flags@.len() <= count,
            flags_from(data@, start as int, Seq::empty(), count as nat) == flags_from(
                data@,
                cursor as int,
                flags@,
                count as nat,
            ),
        decreases count - flags@.len(),
    {
        let flag = read_u8(data, cursor)?;
        cursor = cursor + 1;
        flags.push(flag);
        if flag & REPEAT_FLAG != 0 {
            let repeat: usize = read_u8(data, cursor)? as usize;
            cursor = cursor + 1;
            if flags.len() + repeat > count {
                return Err(invalid_data("glyf flag repeat exceeds point count"));
            }
            let ghost before = flags@;
            let mut copied: usize = 0;
            while copied < repeat
                invariant
                    copied <= repeat,
                    flags@ == before + Seq::new(copied as nat, |i: int| flag),
                decreases repeat - copied,
            {
                flags.push(flag);
                copied = copied + 1;
                assert(flags@ =~= before + Seq::new(copied as nat, |i: int| flag));
            }
        }
    }
    Ok((flags, cursor))
}

/// Reads the coordinate delta of one point and moves past it.
pub fn read_coordinate_delta(
    data: &[u8],
    cursor: &mut usize,
    flag: u8,
    short_mask: u8,
    same_or_positive_mask: u8,
) -> (r: Result<i32, FontError>)
    ensures
        match (r, delta_at(data@, *old(cursor) as int, flag, short_mask, same_or_positive_mask)) {
            (Ok(delta), Ok((expected, next))) => delta == expected && *final(cursor) == next && (
            *old(cursor) <= data@.len() ==> next <= data@.len()),
            (Err(error), Err(expected)) => error == expected && *final(cursor) == *old(cursor),
            _ => false,
        },
{
    if flag & short_mask != 0 {
        let magnitude: i32 = read_u8(data, *cursor)? as i32;
        *cursor = *cursor + 1;
        if flag & same_or_positive_mask != 0 {
            Ok(magnitude)
        } else {
            Ok(-magnitude)
        }
    } else if flag & same_or_positive_mask != 0 {
        Ok(0)
    } else {
        let delta: i32 = read_i16(data, *cursor)? as i32;
        *cursor = *cursor + 2;
        Ok(delta)
    }
}

proof fn coordinates_error_stays(
    data: Seq<u8>,
    cursor: int,
    flags: Seq<u8>,
    masks: (u8, u8),
    overflow: &'static str,
    shorter: nat,
    longer: nat,
)
    requires
        shorter <= longer,
        coordinates_upto(data, cursor, flags, masks, overflow, shorter) is Err,
    ensures
        coordinates_upto(data, cursor, flags, masks, overflow, longer) == coordinates_upto(
            data,
            cursor,
            flags,
            masks,
            overflow,
            shorter,
        ),
    decreases longer,
{
    if shorter < longer {
        coordinates_error_stays(
            data,
            cursor,
            flags,
            masks,
            overflow,
            shorter,
            (longer - 1) as nat,
        );
    }
}

/// Reads the coordinates of all points along one axis.
fn read_coordinates(
    data: &[u8],
    start: usize,
    flags: &Vec<u8>,
    short_mask: u8,
    same_or_positive_mask: u8,
    overflow: &'static str,
) -> (r: Result<(Vec<i32>, usize), FontError>)
    requires
        start <= data@.len(),
    ensures
        match (
            r,
            coordinates_upto(
                data@,
                start as int,
                flags@,
                (short_mask, same_or_positive_mask),
                overflow,
                flags@.len(),
            ),
        ) {
            (Ok((values, cursor)), Ok((expected, next))) => values@ == expected && cursor == next
                && values@.len() == flags@.len() && cursor <= data@.len(),
            (Err(error), Err(expected)) => error == expected,
            _ => false,
        },
{
    let ghost masks = (short_mask, same_or_positive_mask);
    let mut values: Vec<i32> = Vec::with_capacity(flags.len());
    let mut cursor: usize = start;
    let mut value: i32 = 0;
    let mut index: usize = 0;
    while index < flags.len()
        invariant
            index <= flags@.len(),
            cursor <= data@.len(),
            masks == (short_mask, same_or_positive_mask),
            values@.len() == index,
            value == (if index == 0 {
                0
            } else {
                values@.last()
            }),
            coordinates_upto(data@, start as int, flags@, masks, overflow, index as nat) == Ok::<
                _,
                FontError,
            >((values@, cursor as int)),
        decreases flags@.len() - index,
    {
        proof {
            if coordinates_upto(data@, start as int, flags@, masks, overflow, index as nat + 1) is Err {
                coordinates_error_stays(
                    data@,
                    start as int,
                    flags@,
                    masks,
                    overflow,
                    index as nat + 1,
                    flags@.len(),
                );
            }
        }
        let delta = read_coordinate_delta(
            data,
            &mut cursor,
            flags[index],
            short_mask,
            same_or_positive_mask,
        )?;
        value = match value.checked_add(delta) {
            Some(value) => value,
            None => return Err(invalid_data(overflow)),
        };
        values.push(value);
        index = index + 1;
    }
    Ok((values, cursor))
}

/// Copies the points `start..end` into a contour.
fn cut_contour(flags: &Vec<u8>, xs: &Vec<i32>, ys: &Vec<i32>, start: usize, end: usize) -> (r:
    Contour)
    requires
        start <= end <= flags@.len(),
        xs@.len() == flags@.len(),
        ys@.len() == flags@.len(),
    ensures
        r.points@ == points_of(flags@, xs@, ys@).subrange(start as int, end as int),
{
    let ghost all = points_of(flags@, xs@, ys@);
    let mut points: Vec<GlyphPoint> = Vec::with_capacity(end - start);
    let mut index: usize = start;
    while index < end
        invariant
            start <= index <= end <= flags@.len(),
            xs@.len() == flags@.len(),
            ys@.len() == flags@.len(),
            all == points_of(flags@, xs@, ys@),
            points@ == all.subrange(start as int, index as int),
        decreases end - index,
    {
        points.push(
            GlyphPoint { x: xs[index], y: ys[index], on_curve: flags[index] & ON_CURVE_POINT != 0 },
        );
        index = index + 1;
        assert(points@ =~= all.subrange(start as int, index as int));
    }
    Contour { points }
}

/// Decodes a simple glyph.
#[verifier::loop_isolation(false)]
pub fn parse_simple_glyph(data: &[u8]) -> (r: Result<Glyph, FontError>)
    ensures
        match (r, spec_simple_glyph(data@)) {
            (Ok(glyph), Ok(expected)) => glyph.model() == expected,
            (Err(error), Err(expected)) => error == expected,
            _ => false,
        },
{
    require(data, 0, 10, "glyf header")?;
    let number_of_contours = read_i16(data, 0)?;
    if number_of_contours < 0 {
        return Err(invalid_data("composite passed to simple glyph decoder"));
    }
    let bounds = read_bounds(data)?;
    if number_of_contours == 0 {
        let glyph = Glyph { bounds, contours: Vec::new(), steps: Vec::new() };
        assert(glyph.model().contours =~= Seq::empty());
        assert(glyph.model().steps =~= Seq::empty());
        return Ok(glyph);
    }
    let contour_count: usize = number_of_contours as usize;
    require(data, 10, contour_count * 2, "glyf contour endpoints")?;
    let ends = read_contour_ends(data, contour_count)?;
    let point_count: usize = ends[contour_count - 1] as usize + 1;
    let instruction_length_offset: usize = 10 + contour_count * 2;
    let instruction_length: usize = read_u16(data, instruction_length_offset)? as usize;
    require(data, instruction_length_offset + 2, instruction_length, "glyf instructions")?;
    let start: usize = instruction_length_offset + 2 + instruction_length;
    let (flags, x_start) = read_flags(data, start, point_count)?;
    let (xs, y_start) = read_coordinates(
        data,
        x_start,
        &flags,
        X_SHORT_VECTOR,
        X_IS_SAME_OR_POSITIVE_X_SHORT_VECTOR,
        "glyf x coordinate overflow",
    )?;
    let (ys, _) = read_coordinates(
        data,
        y_start,
        &flags,
        Y_SHORT_VECTOR,
        Y_IS_SAME_OR_POSITIVE_Y_SHORT_VECTOR,
        "glyf y coordinate overflow",
    )?;
    let ghost expected = split_contours(points_of(flags@, xs@, ys@), ends@);
    let mut contours: Vec<Contour> = Vec::with_capacity(contour_count);
    let mut index: usize = 0;
    assert(contour_points(contours@) =~= expected.take(0));
    while index < contour_count
        invariant
            index <= contour_count,
            contour_points(contours@) == expected.take(index as int),
        decreases contour_count - index,
    {
        let first: usize = if index == 0 {
            0
        } else {
            ends[index - 1] as usize + 1
        };
        let ghost before = contours@;
        let contour = cut_contour(&flags, &xs, &ys, first, ends[index] as usize + 1);
        contours.push(contour);
        index = index + 1;
        assert(contour_points(contours@) =~= contour_points(before).push(contour.points@));
        assert(contour_points(contours@) =~= expected.take(index as int));
    }
    assert(expected.take(contour_count as int) =~= expected);
    let glyph = Glyph { bounds, contours, steps: Vec::new() };
    assert(glyph.model().steps =~= Seq::empty());
    Ok(glyph)
}

} // verus!
