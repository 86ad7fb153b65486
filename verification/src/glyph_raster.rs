//! CPU preparation for the glyph rasterizer, a compute shader that fills an atlas
//! from quadratic segments.

use crate::float_bits::F32Bits;
use crate::simple_ttf::glyph::{Glyph, GlyphPoint};
use crate::simple_ttf::path;
use crate::simple_ttf::path::{PathCommand, PathPoint};
use vstd::prelude::*;

verus! {

/// Arguments that cannot be rasterized; the text says why.
#[derive(Debug, Clone, Copy, PartialEq, Eq)]
pub struct InvalidInput(pub &'static str);

/// One segment as the shader reads it: four numbers each for two vectors. Y increases
/// downward.
#[derive(Debug, Clone, Copy, PartialEq, Eq)]
pub struct GpuQuadratic {
    pub p0_p1: [F32Bits; 4],
    pub p2_winding: [F32Bits; 4],
}

/// The raster fields in the compute shader's push-constant block.
#[derive(Debug, Clone, Copy, PartialEq, Eq)]
pub struct RasterJob {
    pub rect: [u32; 4],
    pub segment_range: [u32; 4],
    pub mapping: [F32Bits; 4],
}

// ---------------------------------------------------------------------------
// Bytes for the device
// ---------------------------------------------------------------------------

/// A byte of a word, least significant first.
pub open spec fn byte_of(word: u32, place: int) -> u8 {
    if place == 0 {
        (word % 0x100) as u8
    } else if place == 1 {
        (word / 0x100 % 0x100) as u8
    } else if place == 2 {
        (word / 0x1_0000 % 0x100) as u8
    } else {
        (word / 0x100_0000) as u8
    }
}

/// Words as little-endian bytes.
pub open spec fn word_bytes(words: Seq<u32>) -> Seq<u8> {
    Seq::new(words.len() * 4, |i: int| byte_of(words[i / 4], i % 4))
}

/// The bit patterns of numbers.
pub open spec fn patterns(values: Seq<F32Bits>) -> Seq<u32> {
    values.map_values(|value: F32Bits| value.0)
}

/// The words of a segment.
pub open spec fn segment_words(segment: GpuQuadratic) -> Seq<u32> {
    patterns(segment.p0_p1@) + patterns(segment.p2_winding@)
}

/// The words of all segments.
pub open spec fn segments_words(segments: Seq<GpuQuadratic>) -> Seq<u32>
    decreases segments.len(),
{
    if segments.len() == 0 {
        Seq::empty()
    } else {
        segments_words(segments.drop_last()) + segment_words(segments.last())
    }
}

/// The words of a job.
pub open spec fn job_words(job: RasterJob) -> Seq<u32> {
    job.rect@ + job.segment_range@ + patterns(job.mapping@)
}

fn push_word(bytes: &mut Vec<u8>, word: u32, Ghost(words): Ghost<Seq<u32>>)
    requires
        old(bytes)@ == word_bytes(words),
    ensures
        final(bytes)@ == word_bytes(words.push(word)),
{
    bytes.push((word % 0x100) as u8);
    bytes.push((word / 0x100 % 0x100) as u8);
    bytes.push((word / 0x1_0000 % 0x100) as u8);
    bytes.push((word / 0x100_0000) as u8);
    assert(bytes@ =~= word_bytes(words.push(word))) by {
        let all = words.push(word);
        assert forall|i: int| 0 <= i < all.len() * 4 implies bytes@[i] == word_bytes(all)[i] by {
            if i < words.len() * 4 {
                assert(all[i / 4] == words[i / 4]);
            } else {
                assert(i / 4 == words.len());
            }
        }
    }
}

/// The workgroups of eight texels that cover a side.
pub open spec fn groups_of(side: u32) -> u32 {
    ((side + 7) / 8) as u32
}

impl RasterJob {
    /// The workgroups that cover the rectangle, eight by eight texels each.
    pub fn workgroups(&self) -> (r: [u32; 3])
        ensures
            r@ == seq![groups_of(self.rect@[2]), groups_of(self.rect@[3]), 1u32],
    {
        let columns: u32 = ((self.rect[2] as u64 + 7) / 8) as u32;
        let rows: u32 = ((self.rect[3] as u64 + 7) / 8) as u32;
        let groups = [columns, rows, 1];
        assert(groups@ =~= seq![columns, rows, 1u32]);
        groups
    }

    /// The job as the shader reads it.
    pub fn to_le_bytes(self) -> (r: [u8; 48])
        ensures
            r@ == word_bytes(job_words(self)),
    {
        let ghost all = job_words(self);
        let mut encoded: Vec<u8> = Vec::with_capacity(48);
        let mut index: usize = 0;
        assert(encoded@ =~= word_bytes(all.take(0)));
        while index < 12
            invariant
                index <= 12,
                all == job_words(self),
                all.len() == 12,
                encoded@ == word_bytes(all.take(index as int)),
            decreases 12 - index,
        {
            let word: u32 = if index < 4 {
                self.rect[index]
            } else if index < 8 {
                self.segment_range[index - 4]
            } else {
                self.mapping[index - 8].0
            };
            assert(word == all[index as int]);
            push_word(&mut encoded, word, Ghost(all.take(index as int)));
            assert(all.take(index as int).push(word) =~= all.take(index + 1));
            index = index + 1;
        }
        assert(all.take(12) =~= all);
        let mut bytes: [u8; 48] = [0;48];
        let mut place: usize = 0;
        while place < 48
            invariant
                place <= 48,
                encoded@.len() == 48,
                encoded@ == word_bytes(all),
                forall|i: int| 0 <= i < place ==> bytes@[i] == encoded@[i],
            decreases 48 - place,
        {
            bytes[place] = encoded[place];
            place = place + 1;
        }
        assert(bytes@ =~= encoded@);
        bytes
    }
}

fn push_numbers(bytes: &mut Vec<u8>, numbers: &[F32Bits; 4], Ghost(words): Ghost<Seq<u32>>)
    requires
        old(bytes)@ == word_bytes(words),
    ensures
        final(bytes)@ == word_bytes(words + patterns(numbers@)),
{
    let ghost all = patterns(numbers@);
    let mut index: usize = 0;
    assert(words + all.take(0) =~= words);
    while index < 4
        invariant
            index <= 4,
            all == patterns(numbers@),
            all.len() == 4,
            bytes@ == word_bytes(words + all.take(index as int)),
        decreases 4 - index,
    {
        push_word(bytes, numbers[index].0, Ghost(words + all.take(index as int)));
        assert((words + all.take(index as int)).push(all[index as int]) =~= words + all.take(
            index + 1,
        ));
        index = index + 1;
    }
    assert(all.take(4) =~= all);
}

/// Encodes segments for the outline cache of the device.
pub fn encode_segments(segments: &[GpuQuadratic]) -> (r: Vec<u8>)
    ensures
        r@ == word_bytes(segments_words(segments@)),
        r@.len() == segments@.len() * 32,
{
    let mut bytes: Vec<u8> = Vec::new();
    let mut index: usize = 0;
    assert(bytes@ =~= word_bytes(segments_words(segments@.take(0))));
    while index < segments.len()
        invariant
            index <= segments@.len(),
            bytes@ == word_bytes(segments_words(segments@.take(index as int))),
            segments_words(segments@.take(index as int)).len() == index * 8,
        decreases segments@.len() - index,
    {
        let ghost words = segments_words(segments@.take(index as int));
        let ghost segment = segments@[index as int];
        push_numbers(&mut bytes, &segments[index].p0_p1, Ghost(words));
        push_numbers(
            &mut bytes,
            &segments[index].p2_winding,
            Ghost(words + patterns(segment.p0_p1@)),
        );
        proof {
            let next = segments@.take(index + 1);
            assert(next.drop_last() =~= segments@.take(index as int));
            assert(next.last() == segment);
            assert(words + patterns(segment.p0_p1@) + patterns(segment.p2_winding@)
                =~= segments_words(next));
        }
        index = index + 1;
    }
    assert(segments@.take(index as int) =~= segments@);
    bytes
}

// ---------------------------------------------------------------------------
// Curves
// ---------------------------------------------------------------------------

/// A segment to draw. Without a control point it is a straight line.
#[derive(Debug, Clone, Copy, PartialEq, Eq, Structural)]
pub struct CurveSegment {
    pub start: PathPoint,
    pub control: Option<PathPoint>,
    pub end: PathPoint,
}

/// The segments of the first `count` commands, and the point at which they leave
/// the pen.
pub open spec fn curves_upto(commands: Seq<PathCommand>, count: nat) -> Result<
    (Seq<CurveSegment>, Option<PathPoint>),
    InvalidInput,
>
    decreases count,
{
    if count == 0 {
        Ok((Seq::empty(), None))
    } else {
        match curves_upto(commands, (count - 1) as nat) {
            Err(error) => Err(error),
            Ok((segments, current)) => match commands[count - 1] {
                PathCommand::MoveTo(point) => Ok((segments, Some(point))),
                PathCommand::LineTo(end) => match current {
                    None => Err(InvalidInput("line without a starting point")),
                    Some(start) => Ok(
                        (segments.push(CurveSegment { start, control: None, end }), Some(end)),
                    ),
                },
                PathCommand::QuadTo { control, end } => match current {
                    None => Err(InvalidInput("quadratic without a starting point")),
                    Some(start) => Ok(
                        (
                            segments.push(
                                CurveSegment { start, control: Some(control), end },
                            ),
                            Some(end),
                        ),
                    ),
                },
            },
        }
    }
}

proof fn curves_error_stays(commands: Seq<PathCommand>, shorter: nat, longer: nat)
    requires
        shorter <= longer,
        curves_upto(commands, shorter) is Err,
    ensures
        curves_upto(commands, longer) == curves_upto(commands, shorter),
    decreases longer,
{
    if shorter < longer {
        curves_error_stays(commands, shorter, (longer - 1) as nat);
    }
}

/// Turns commands into segments.
pub fn plan_curves(commands: &Vec<PathCommand>) -> (r: Result<Vec<CurveSegment>, InvalidInput>)
    ensures
        match (r, curves_upto(commands@, commands@.len())) {
            (Ok(segments), Ok((expected, _))) => segments@ == expected,
            (Err(error), Err(expected)) => error == expected,
            _ => false,
        },
{
    let mut segments: Vec<CurveSegment> = Vec::with_capacity(commands.len());
    let mut current: Option<PathPoint> = None;
    let mut index: usize = 0;
    while index < commands.len()
        invariant
            index <= commands@.len(),
            curves_upto(commands@, index as nat) == Ok::<_, InvalidInput>((segments@, current)),
        decreases commands@.len() - index,
    {
        proof {
            if curves_upto(commands@, index as nat + 1) is Err {
                curves_error_stays(commands@, index as nat + 1, commands@.len());
            }
        }
        match commands[index] {
            PathCommand::MoveTo(point) => {
                current = Some(point);
            },
            PathCommand::LineTo(end) => {
                let start = match current {
                    Some(start) => start,
                    None => return Err(InvalidInput("line without a starting point")),
                };
                segments.push(CurveSegment { start, control: None, end });
                current = Some(end);
            },
            PathCommand::QuadTo { control, end } => {
                let start = match current {
                    Some(start) => start,
                    None => return Err(InvalidInput("quadratic without a starting point")),
                };
                segments.push(CurveSegment { start, control: Some(control), end });
                current = Some(end);
            },
        }
        index = index + 1;
    }
    Ok(segments)
}

/// The commands of a glyph.
pub open spec fn glyph_commands(glyph: Glyph) -> Seq<PathCommand> {
    path::paths_upto(glyph.model().contours, glyph.contours@.len())
}

/// Lists the segments of a glyph's closed contours. They still have to be cut where
/// they turn, and placed. This never fails: every contour starts with a point.
pub fn prepare_glyph(glyph: &Glyph) -> (r: Result<Vec<CurveSegment>, InvalidInput>)
    ensures
        ({
            let commands = glyph_commands(*glyph);
            r matches Ok(segments) && curves_upto(commands, commands.len()) is Ok && segments@
                == curves_upto(commands, commands.len())->Ok_0.0
        }),
{
    let commands = glyph.path_commands();
    proof {
        let contours = glyph.model().contours;
        assert forall|i: int| 0 <= i < contours.len() implies (#[trigger] contours[i]).len()
            <= usize::MAX by {
            assert(contours[i] == glyph.contours@[i].points@);
            assert(glyph.contours@[i].points.len() == glyph.contours@[i].points@.len());
        }
        glyph_paths_start_somewhere(contours, glyph.contours@.len());
        curves_of_paths_exist(commands@, commands@.len());
    }
    plan_curves(&commands)
}

// ---------------------------------------------------------------------------
// Placement
// ---------------------------------------------------------------------------

/// A glyph's segments, and the bounds of their points in Y-down font units.
#[derive(Debug)]
pub struct PreparedGlyph {
    pub segments: Vec<GpuQuadratic>,
    pub bounds: [F32Bits; 4],
}

/// Where a glyph goes.
#[derive(Debug, Clone, Copy, PartialEq, Eq)]
pub struct RasterPlacement {
    /// Padded bitmap offset from an integer-positioned pen, in pixels.
    pub origin: [i32; 2],
    pub size: [u32; 2],
    pub scale: F32Bits,
    pub phase: [F32Bits; 2],
}

/// A fraction of a pixel.
pub open spec fn fraction(value: F32Bits) -> bool {
    value.finite() && 0 <= value.order() < F32Bits::ONE().order()
}

/// The padded pixels that a glyph covers along one axis. `None` stands for a bound
/// that is no integer of this size.
#[derive(Debug, Clone, Copy, PartialEq, Eq, Structural)]
pub struct PixelSpan {
    pub low: Option<i64>,
    pub high: Option<i64>,
}

impl PixelSpan {
    /// The span is not empty and stays in the supported range.
    pub open spec fn supported(self) -> bool {
        self.low is Some && self.high is Some && -1_048_576 <= self.low->Some_0
            < self.high->Some_0 <= 1_048_576
    }

    fn is_supported(&self) -> (r: bool)
        ensures
            r == self.supported(),
    {
        match (self.low, self.high) {
            (Some(low), Some(high)) => low >= -1_048_576 && high <= 1_048_576 && high > low,
            _ => false,
        }
    }
}

fn is_fraction(value: F32Bits) -> (r: bool)
    ensures
        r == fraction(value),
{
    value.is_finite() && !value.less_than(F32Bits::ZERO()) && value.less_than(F32Bits::ONE())
}

impl PreparedGlyph {
    /// Checks the size and the position that a glyph is asked for. Yields whether
    /// there is anything to draw.
    pub fn check_placement(&self, ppem: F32Bits, units_per_em: u16, phase: [F32Bits; 2]) -> (r:
        Result<bool, InvalidInput>)
        ensures
            r == (if !ppem.finite() || ppem.order() <= 0 || units_per_em == 0 || !fraction(
                phase@[0],
            ) || !fraction(phase@[1]) {
                Err::<bool, InvalidInput>(
                    InvalidInput("invalid ppem, units_per_em, or fractional phase"),
                )
            } else {
                Ok(self.segments@.len() > 0)
            }),
    {
        if !ppem.is_finite() || !F32Bits::ZERO().less_than(ppem) || units_per_em == 0
            || !is_fraction(phase[0]) || !is_fraction(phase[1]) {
            return Err(InvalidInput("invalid ppem, units_per_em, or fractional phase"));
        }
        Ok(self.segments.len() > 0)
    }

    /// Places a glyph, given the scale, its reciprocal and the pixels covered along
    /// both axes.
    pub fn placement(
        &self,
        scale: F32Bits,
        reciprocal: F32Bits,
        phase: [F32Bits; 2],
        across: PixelSpan,
        down: PixelSpan,
    ) -> (r: Result<RasterPlacement, InvalidInput>)
        ensures
            match r {
                Ok(placement) => {
                    &&& scale.finite() && scale.order() > 0 && reciprocal.finite()
                    &&& across.supported() && down.supported()
                    &&& placement.origin@ == seq![
                        across.low->Some_0 as i32,
                        down.low->Some_0 as i32,
                    ]
                    &&& placement.size@ == seq![
                        (across.high->Some_0 - across.low->Some_0) as u32,
                        (down.high->Some_0 - down.low->Some_0) as u32,
                    ]
                    &&& placement.scale == scale
                    &&& placement.phase == phase
                },
                Err(error) => if !scale.finite() || scale.order() <= 0 || !reciprocal.finite() {
                    error == InvalidInput("invalid raster scale")
                } else {
                    &&& !across.supported() || !down.supported()
                    &&& error == InvalidInput("glyph raster bounds exceed supported range")
                },
            },
    {
        if !F32Bits::ZERO().less_than(scale) || !scale.is_finite() || !reciprocal.is_finite() {
            return Err(InvalidInput("invalid raster scale"));
        }
        if !across.is_supported() || !down.is_supported() {
            return Err(InvalidInput("glyph raster bounds exceed supported range"));
        }
        let (left, right): (i64, i64) = match (across.low, across.high) {
            (Some(low), Some(high)) => (low, high),
            _ => return Err(InvalidInput("glyph raster bounds exceed supported range")),
        };
        let (top, bottom): (i64, i64) = match (down.low, down.high) {
            (Some(low), Some(high)) => (low, high),
            _ => return Err(InvalidInput("glyph raster bounds exceed supported range")),
        };
        let origin = [left as i32, top as i32];
        let size = [(right - left) as u32, (bottom - top) as u32];
        assert(origin@ =~= seq![left as i32, top as i32]);
        assert(size@ =~= seq![(right - left) as u32, (bottom - top) as u32]);
        Ok(RasterPlacement { origin, size, scale, phase })
    }
}

/// A placed extent fits an atlas along one axis.
pub open spec fn fits_atlas(size: u32, at: u32, atlas: u32) -> bool {
    size > 0 && atlas <= i32::MAX && at + size <= atlas
}

/// The rectangle and the segments of a job were accepted.
pub open spec fn accepted(
    placement: RasterPlacement,
    atlas_xy: Seq<u32>,
    atlas_size: Seq<u32>,
    first_segment: u32,
    segment_count: u32,
    total_uploaded_segments: u32,
) -> bool {
    &&& fits_atlas(placement.size@[0], atlas_xy[0], atlas_size[0])
    &&& fits_atlas(placement.size@[1], atlas_xy[1], atlas_size[1])
    &&& first_segment + segment_count <= total_uploaded_segments
}

/// The job that draws into a rectangle of the atlas.
pub open spec fn draws(
    job: RasterJob,
    placement: RasterPlacement,
    atlas_xy: Seq<u32>,
    first_segment: u32,
    segment_count: u32,
    total_uploaded_segments: u32,
) -> bool {
    &&& job.rect@ == seq![atlas_xy[0], atlas_xy[1], placement.size@[0], placement.size@[1]]
    &&& job.segment_range@ == seq![first_segment, segment_count, total_uploaded_segments, 0u32]
}

impl RasterPlacement {
    /// The job that draws the segments `first_segment..` of an uploaded buffer into
    /// a rectangle of the atlas. `mapping` holds the reciprocal of the scale, the
    /// origin less the phase for both axes, and zero.
    pub fn job(
        &self,
        atlas_xy: [u32; 2],
        atlas_size: [u32; 2],
        first_segment: u32,
        segment_count: u32,
        total_uploaded_segments: u32,
        mapping: [F32Bits; 4],
    ) -> (r: Result<RasterJob, InvalidInput>)
        ensures
            ({
                let allowed = accepted(
                    *self,
                    atlas_xy@,
                    atlas_size@,
                    first_segment,
                    segment_count,
                    total_uploaded_segments,
                );
                match r {
                    Ok(job) => {
                        &&& allowed
                        &&& draws(
                            job,
                            *self,
                            atlas_xy@,
                            first_segment,
                            segment_count,
                            total_uploaded_segments,
                        )
                        &&& job.mapping == mapping
                    },
                    Err(error) => !allowed && error == (if fits_atlas(
                        self.size@[0],
                        atlas_xy@[0],
                        atlas_size@[0],
                    ) && fits_atlas(self.size@[1], atlas_xy@[1], atlas_size@[1]) {
                        InvalidInput("curve range is outside the uploaded buffer")
                    } else {
                        InvalidInput("atlas rectangle is outside the image")
                    }),
                }
            }),
    {
        let mut axis: usize = 0;
        while axis < 2
            invariant
                axis <= 2,
                forall|i: int|
                    0 <= i < axis ==> fits_atlas(
                        self.size@[i],
                        #[trigger] atlas_xy@[i],
                        atlas_size@[i],
                    ),
            decreases 2 - axis,
        {
            if self.size[axis] == 0 || atlas_size[axis] > i32::MAX as u32 || atlas_xy[axis]
                > atlas_size[axis] || self.size[axis] > atlas_size[axis] - atlas_xy[axis] {
                assert(axis == 0 || axis == 1);
                return Err(InvalidInput("atlas rectangle is outside the image"));
            }
            axis = axis + 1;
        }
        assert(fits_atlas(self.size@[0], atlas_xy@[0], atlas_size@[0]));
        assert(fits_atlas(self.size@[1], atlas_xy@[1], atlas_size@[1]));
        if first_segment > total_uploaded_segments || segment_count > total_uploaded_segments
            - first_segment {
            return Err(InvalidInput("curve range is outside the uploaded buffer"));
        }
        let rect = [atlas_xy[0], atlas_xy[1], self.size[0], self.size[1]];
        let segment_range = [first_segment, segment_count, total_uploaded_segments, 0];
        assert(rect@ =~= seq![atlas_xy@[0], atlas_xy@[1], self.size@[0], self.size@[1]]);
        assert(segment_range@ =~= seq![
            first_segment,
            segment_count,
            total_uploaded_segments,
            0u32,
        ]);
        Ok(RasterJob { rect, segment_range, mapping })
    }
}

// ---------------------------------------------------------------------------
// Laws
// ---------------------------------------------------------------------------

/// Commands that start with a `MoveTo` always yield segments. Each segment starts
/// where the command before it left the pen.
pub proof fn curves_of_paths_exist(commands: Seq<PathCommand>, count: nat)
    requires
        count <= commands.len(),
        commands.len() > 0 ==> commands[0] is MoveTo,
    ensures
        curves_upto(commands, count) is Ok,
        count > 0 ==> curves_upto(commands, count)->Ok_0.1 == Some(commands[count - 1].end_point()),
        count > 1 && !(commands[count - 1] is MoveTo) ==> {
            let segments = curves_upto(commands, count)->Ok_0.0;
            segments.len() > 0 && segments.last().start == commands[count - 2].end_point()
                && segments.last().end == commands[count - 1].end_point()
        },
    decreases count,
{
    if count > 0 {
        curves_of_paths_exist(commands, (count - 1) as nat);
    }
}

/// The commands of a glyph are none, or start with a `MoveTo`.
pub proof fn glyph_paths_start_somewhere(contours: Seq<Seq<GlyphPoint>>, count: nat)
    requires
        count <= contours.len(),
        forall|i: int| 0 <= i < contours.len() ==> (#[trigger] contours[i]).len() <= usize::MAX,
    ensures
        path::paths_upto(contours, count).len() > 0 ==> path::paths_upto(
            contours,
            count,
        )[0] is MoveTo,
    decreases count,
{
    if count > 0 {
        let before = path::paths_upto(contours, (count - 1) as nat);
        let points = contours[count - 1];
        glyph_paths_start_somewhere(contours, (count - 1) as nat);
        if points.len() > 0 {
            path::paths_are_closed(points, (count - 1) as usize);
        } else {
            assert(points =~= Seq::empty());
            path::empty_contours_have_no_path((count - 1) as usize);
        }
        if before.len() > 0 {
            assert(path::paths_upto(contours, count)[0] == before[0]);
        }
    }
}

/// The workgroups of a job cover its rectangle, with less than one to spare in each
/// direction.
pub proof fn workgroups_cover(side: u32)
    ensures
        groups_of(side) * 8 >= side,
        side > 0 ==> (groups_of(side) - 1) * 8 < side,
        side == 0 ==> groups_of(side) == 0,
{
}

/// A job that was accepted draws inside the atlas and reads uploaded segments only.
pub proof fn jobs_stay_inside(
    job: RasterJob,
    placement: RasterPlacement,
    atlas_xy: Seq<u32>,
    atlas_size: Seq<u32>,
    first_segment: u32,
    segment_count: u32,
    total_uploaded_segments: u32,
    column: int,
    row: int,
    segment: int,
)
    requires
        accepted(
            placement,
            atlas_xy,
            atlas_size,
            first_segment,
            segment_count,
            total_uploaded_segments,
        ),
        draws(
            job,
            placement,
            atlas_xy,
            first_segment,
            segment_count,
            total_uploaded_segments,
        ),
        0 <= column < job.rect@[2],
        0 <= row < job.rect@[3],
        0 <= segment < job.segment_range@[1],
    ensures
        job.rect@[0] + column < atlas_size[0] <= i32::MAX,
        job.rect@[1] + row < atlas_size[1] <= i32::MAX,
        job.segment_range@[0] + segment < total_uploaded_segments,
{
}

/// The word that four bytes hold, least significant first.
pub open spec fn word_at(bytes: Seq<u8>, place: int) -> int {
    bytes[place] + 0x100 * bytes[place + 1] + 0x1_0000 * bytes[place + 2] + 0x100_0000 * bytes[place
        + 3]
}

/// Reading four bytes back gives the word that was encoded there.
pub proof fn words_are_read_back(words: Seq<u32>, index: int)
    requires
        0 <= index < words.len(),
    ensures
        word_at(word_bytes(words), 4 * index) == words[index],
{
    let bytes = word_bytes(words);
    let word = words[index];
    byte_places(index);
    assert(bytes[4 * index] == byte_of(word, 0));
    assert(bytes[4 * index + 1] == byte_of(word, 1));
    assert(bytes[4 * index + 2] == byte_of(word, 2));
    assert(bytes[4 * index + 3] == byte_of(word, 3));
    word_of_bytes(word);
}

proof fn byte_places(index: int)
    ensures
        (4 * index) / 4 == index && (4 * index) % 4 == 0,
        (4 * index + 1) / 4 == index && (4 * index + 1) % 4 == 1,
        (4 * index + 2) / 4 == index && (4 * index + 2) % 4 == 2,
        (4 * index + 3) / 4 == index && (4 * index + 3) % 4 == 3,
{
}

proof fn word_of_bytes(word: u32)
    ensures
        byte_of(word, 0) + 0x100 * byte_of(word, 1) + 0x1_0000 * byte_of(word, 2) + 0x100_0000
            * byte_of(word, 3) == word,
{
    let rest = word / 0x100;
    assert(word / 0x1_0000 == rest / 0x100);
    assert(word / 0x100_0000 == rest / 0x100 / 0x100);
}

/// Every segment takes eight words, thirty-two bytes, at its place.
pub proof fn segments_lie_at_their_stride(segments: Seq<GpuQuadratic>, index: int, word: int)
    requires
        0 <= index < segments.len(),
        0 <= word < 8,
    ensures
        segments_words(segments).len() == segments.len() * 8,
        segments_words(segments)[index * 8 + word] == segment_words(segments[index])[word],
    decreases segments.len(),
{
    let before = segments.drop_last();
    if index < before.len() {
        segments_lie_at_their_stride(before, index, word);
        assert(index * 8 + word < before.len() * 8);
    } else {
        stride(before);
    }
}

proof fn stride(segments: Seq<GpuQuadratic>)
    ensures
        segments_words(segments).len() == segments.len() * 8,
    decreases segments.len(),
{
    if segments.len() > 0 {
        stride(segments.drop_last());
    }
}

/// Every line and every curve becomes one segment: from where the pen was to the end of the
/// command, with its control if it has one. The segments before it stay as they are, and a
/// `MoveTo` only moves the pen.
pub proof fn commands_become_segments(commands: Seq<PathCommand>, count: nat)
    requires
        0 < count <= commands.len(),
        curves_upto(commands, (count - 1) as nat) is Ok,
    ensures
        ({
            let (before, pen) = curves_upto(commands, (count - 1) as nat)->Ok_0;
            let after = curves_upto(commands, count);
            match commands[count - 1] {
                PathCommand::MoveTo(point) => after matches Ok((segments, now)) && segments
                    == before && now == Some(point),
                PathCommand::LineTo(end) => if pen is None {
                    after is Err
                } else {
                    after matches Ok((segments, now)) && now == Some(end) && segments.len()
                        == before.len() + 1 && segments.drop_last() == before
                        && segments.last().start == pen->Some_0 && segments.last().control is None
                        && segments.last().end == end
                },
                PathCommand::QuadTo { control, end } => if pen is None {
                    after is Err
                } else {
                    after matches Ok((segments, now)) && now == Some(end) && segments.len()
                        == before.len() + 1 && segments.drop_last() == before
                        && segments.last().start == pen->Some_0 && segments.last().control == Some(
                        control,
                    ) && segments.last().end == end
                },
            }
        }),
{
    let (before, pen) = curves_upto(commands, (count - 1) as nat)->Ok_0;
    if let Ok((segments, _)) = curves_upto(commands, count) {
        if !(commands[count - 1] is MoveTo) {
            assert(segments.drop_last() =~= before);
        }
    }
}

/// A job says where to draw, how large, which segments and of how many, in this order. It is
/// given out exactly if the rectangle has texels, all of them in the atlas, and the segments
/// have been uploaded.
pub proof fn jobs_say_where_to_draw(
    placement: RasterPlacement,
    atlas_xy: [u32; 2],
    atlas_size: [u32; 2],
    first_segment: u32,
    segment_count: u32,
    total_uploaded_segments: u32,
    mapping: [F32Bits; 4],
    r: Result<RasterJob, InvalidInput>,
)
    requires
        call_ensures(
            RasterPlacement::job,
            (
                &placement,
                atlas_xy,
                atlas_size,
                first_segment,
                segment_count,
                total_uploaded_segments,
                mapping,
            ),
            r,
        ),
    ensures
        r is Ok <==> {
            &&& 0 < placement.size@[0] && 0 < placement.size@[1]
            &&& atlas_xy@[0] + placement.size@[0] <= atlas_size@[0] <= i32::MAX
            &&& atlas_xy@[1] + placement.size@[1] <= atlas_size@[1] <= i32::MAX
            &&& first_segment + segment_count <= total_uploaded_segments
        },
        r matches Ok(job) ==> {
            &&& job.rect@[0] == atlas_xy@[0] && job.rect@[1] == atlas_xy@[1]
            &&& job.rect@[2] == placement.size@[0] && job.rect@[3] == placement.size@[1]
            &&& job.segment_range@[0] == first_segment && job.segment_range@[1] == segment_count
            &&& job.segment_range@[2] == total_uploaded_segments && job.segment_range@[3] == 0
            &&& job.mapping == mapping
        },
{
}

/// The workgroups of a job, each of eight by eight texels, cover the width and then the
/// height of its rectangle, once.
pub proof fn workgroups_cover_both_sides(job: RasterJob, r: [u32; 3])
    requires
        call_ensures(RasterJob::workgroups, (&job,), r),
    ensures
        job.rect@[2] <= r@[0] * 8 < job.rect@[2] + 8,
        job.rect@[3] <= r@[1] * 8 < job.rect@[3] + 8,
        r@[2] == 1,
{
}

/// The shader finds the rectangle of a job first, then the segments, then the mapping.
pub proof fn jobs_are_read_back(job: RasterJob, bytes: [u8; 48], index: int)
    requires
        call_ensures(RasterJob::to_le_bytes, (job,), bytes),
        0 <= index < 4,
    ensures
        word_at(bytes@, 4 * index) == job.rect@[index],
        word_at(bytes@, 16 + 4 * index) == job.segment_range@[index],
        word_at(bytes@, 32 + 4 * index) == job.mapping@[index].0,
{
    let words = job_words(job);
    words_are_read_back(words, index);
    words_are_read_back(words, 4 + index);
    words_are_read_back(words, 8 + index);
}

/// The shader finds segment after segment, thirty-two bytes each: the first two points and
/// then the last one with the winding.
pub proof fn segments_are_read_back(
    segments: &[GpuQuadratic],
    bytes: Vec<u8>,
    index: int,
    word: int,
)
    requires
        call_ensures(encode_segments, (segments,), bytes),
        0 <= index < segments@.len(),
        0 <= word < 4,
    ensures
        bytes@.len() == 32 * segments@.len(),
        word_at(bytes@, 32 * index + 4 * word) == segments@[index].p0_p1@[word].0,
        word_at(bytes@, 32 * index + 16 + 4 * word) == segments@[index].p2_winding@[word].0,
{
    let words = segments_words(segments@);
    segments_lie_at_their_stride(segments@, index, word);
    segments_lie_at_their_stride(segments@, index, 4 + word);
    words_are_read_back(words, index * 8 + word);
    words_are_read_back(words, index * 8 + 4 + word);
}

/// A glyph is placed if its size is positive and the position is a fraction of a pixel, and
/// it is drawn if it has any segment.
pub proof fn placements_are_checked(
    glyph: PreparedGlyph,
    ppem: F32Bits,
    units_per_em: u16,
    phase: [F32Bits; 2],
    r: Result<bool, InvalidInput>,
)
    requires
        call_ensures(PreparedGlyph::check_placement, (&glyph, ppem, units_per_em, phase), r),
    ensures
        r is Ok <==> {
            &&& ppem.finite() && ppem.order() > 0 && units_per_em > 0
            &&& phase@[0].finite() && 0 <= phase@[0].order() < F32Bits::ONE().order()
            &&& phase@[1].finite() && 0 <= phase@[1].order() < F32Bits::ONE().order()
        },
        r matches Ok(drawn) ==> (drawn <==> glyph.segments@.len() > 0),
{
}

/// A placed glyph covers its pixels: it starts at the low bounds and reaches the high bounds,
/// across and down. Bounds beyond 1048576 either way, and empty ones, are refused.
pub proof fn placements_cover_their_pixels(
    glyph: PreparedGlyph,
    scale: F32Bits,
    reciprocal: F32Bits,
    phase: [F32Bits; 2],
    across: PixelSpan,
    down: PixelSpan,
    r: Result<RasterPlacement, InvalidInput>,
)
    requires
        call_ensures(
            PreparedGlyph::placement,
            (&glyph, scale, reciprocal, phase, across, down),
            r,
        ),
    ensures
        r is Ok <==> {
            &&& scale.finite() && scale.order() > 0 && reciprocal.finite()
            &&& across.low is Some && across.high is Some && down.low is Some && down.high is Some
            &&& -1_048_576 <= across.low->Some_0 < across.high->Some_0 <= 1_048_576
            &&& -1_048_576 <= down.low->Some_0 < down.high->Some_0 <= 1_048_576
        },
        r matches Ok(placement) ==> {
            &&& placement.origin@[0] == across.low->Some_0
            &&& placement.origin@[1] == down.low->Some_0
            &&& placement.origin@[0] + placement.size@[0] == across.high->Some_0
            &&& placement.origin@[1] + placement.size@[1] == down.high->Some_0
            &&& placement.scale == scale
            &&& placement.phase@ == phase@
        },
{
}

} // verus!
