//! Components of composite glyphs.

use super::error::FontError;
use super::glyph;
use super::glyph::{Contour, Glyph, GlyphModel, GlyphPoint};
use super::reader;
use super::reader::{invalid_data, to_signed8, GlyphReader};
use vstd::prelude::*;

verus! {

// Composite-glyph flags from the OpenType glyf table description.
pub const ARG_1_AND_2_ARE_WORDS: u16 = 0x0001;

pub const ARGS_ARE_XY_VALUES: u16 = 0x0002;

pub const WE_HAVE_A_SCALE: u16 = 0x0008;

pub const MORE_COMPONENTS: u16 = 0x0020;

pub const WE_HAVE_AN_X_AND_Y_SCALE: u16 = 0x0040;

pub const WE_HAVE_A_TWO_BY_TWO: u16 = 0x0080;

pub const WE_HAVE_INSTRUCTIONS: u16 = 0x0100;

pub const SCALED_COMPONENT_OFFSET: u16 = 0x0800;

pub const UNSCALED_COMPONENT_OFFSET: u16 = 0x1000;

/// Matrix coefficients in the order stored by `glyf`, as 2.14 fixed-point
/// numbers: 16384 stands for one.
#[derive(Debug, Clone, Copy, PartialEq, Eq, Structural)]
pub struct ComponentTransform {
    pub xx: i16,
    pub yx: i16,
    pub xy: i16,
    pub yy: i16,
}

impl ComponentTransform {
    /// The transform that changes nothing.
    #[verifier::allow_in_spec]
    #[allow(non_snake_case)]
    pub fn IDENTITY() -> (r: Self)
        returns
            (ComponentTransform { xx: 16384, yx: 0, xy: 0, yy: 16384 }),
    {
        ComponentTransform { xx: 16384, yx: 0, xy: 0, yy: 16384 }
    }
}

/// How a component record says where the component goes.
#[derive(Debug, Clone, Copy, PartialEq, Eq, Structural)]
pub enum ComponentPlacement {
    /// Moved by this much.
    Offset(i16, i16),
    /// Moved so that this point of the component, the second number, meets this
    /// point of what was placed before, the first number.
    Points(u16, u16),
}

/// One record of a composite glyph.
#[derive(Debug, Clone, Copy, PartialEq, Eq, Structural)]
pub struct GlyphComponent {
    pub flags: u16,
    pub glyph_id: u16,
    pub placement: ComponentPlacement,
    pub transform: ComponentTransform,
}

/// A point of an outline, by contour and by place on the contour.
#[derive(Debug, Clone, Copy, PartialEq, Eq, Structural)]
pub struct PointRef {
    pub contour: usize,
    pub point: usize,
}

impl PointRef {
    /// The point exists.
    pub open spec fn within(self, contours: Seq<Seq<GlyphPoint>>) -> bool {
        self.contour < contours.len() && self.point < contours[self.contour as int].len()
    }

    /// The same point after `by` contours have been put in front.
    pub open spec fn shifted(self, by: int) -> PointRef {
        PointRef { contour: (self.contour + by) as usize, point: self.point }
    }
}

/// The movement of a placed component.
#[derive(Debug, Clone, Copy, PartialEq, Eq, Structural)]
pub enum StepPlacement {
    /// Move by this offset, which passes through the transform first if `scaled`.
    Offset { x: i16, y: i16, scaled: bool },
    /// Move so that `child`, once transformed, lies where `parent` lies.
    Attach { parent: PointRef, child: PointRef },
}

/// Places one component: every point of the contours `start..end` is transformed,
/// then moved.
#[derive(Debug, Clone, Copy, PartialEq, Eq, Structural)]
pub struct ComponentStep {
    pub start: usize,
    pub end: usize,
    pub transform: ComponentTransform,
    pub placement: StepPlacement,
}

impl ComponentStep {
    /// The step moves contours that exist, and attaches a point among them to
    /// one of the contours before them.
    pub open spec fn within(self, contours: Seq<Seq<GlyphPoint>>) -> bool {
        &&& self.start <= self.end <= contours.len()
        &&& self.placement matches StepPlacement::Attach { parent, child } ==> {
            &&& parent.within(contours)
            &&& parent.contour < self.start
            &&& child.within(contours)
            &&& self.start <= child.contour < self.end
        }
    }

    /// The same step after `by` contours have been put in front.
    pub open spec fn shifted(self, by: int) -> ComponentStep {
        ComponentStep {
            start: (self.start + by) as usize,
            end: (self.end + by) as usize,
            transform: self.transform,
            placement: match self.placement {
                StepPlacement::Offset { x, y, scaled } => StepPlacement::Offset { x, y, scaled },
                StepPlacement::Attach { parent, child } => StepPlacement::Attach {
                    parent: parent.shifted(by),
                    child: child.shifted(by),
                },
            },
        }
    }

    fn shift(&self, by: usize) -> (r: ComponentStep)
        requires
            self.end + by <= usize::MAX,
            self.start <= self.end,
            self.placement matches StepPlacement::Attach { parent, child } ==> parent.contour
                <= self.end && child.contour <= self.end,
        ensures
            r == self.shifted(by as int),
    {
        ComponentStep {
            start: self.start + by,
            end: self.end + by,
            transform: self.transform,
            placement: match self.placement {
                StepPlacement::Offset { x, y, scaled } => StepPlacement::Offset { x, y, scaled },
                StepPlacement::Attach { parent, child } => StepPlacement::Attach {
                    parent: PointRef { contour: parent.contour + by, point: parent.point },
                    child: PointRef { contour: child.contour + by, point: child.point },
                },
            },
        }
    }
}

/// All steps stay inside the outline.
pub open spec fn steps_within(steps: Seq<ComponentStep>, contours: Seq<Seq<GlyphPoint>>) -> bool {
    forall|i: int| 0 <= i < steps.len() ==> (#[trigger] steps[i]).within(contours)
}

/// The steps of a component inside the glyph that it is placed in.
pub open spec fn shifted_steps(steps: Seq<ComponentStep>, by: int) -> Seq<ComponentStep> {
    steps.map_values(|step: ComponentStep| step.shifted(by))
}

// ---------------------------------------------------------------------------
// Records
// ---------------------------------------------------------------------------

/// Two bytes in a row.
pub open spec fn two_bytes(data: Seq<u8>, cursor: int) -> Result<(u8, u8), FontError> {
    match reader::spec_read_u8(data, cursor) {
        Err(error) => Err(error),
        Ok(first) => match reader::spec_read_u8(data, cursor + 1) {
            Err(error) => Err(error),
            Ok(second) => Ok((first, second)),
        },
    }
}

/// Two 16-bit numbers in a row.
pub open spec fn two_words(data: Seq<u8>, cursor: int) -> Result<(u16, u16), FontError> {
    match reader::spec_read_u16(data, cursor) {
        Err(error) => Err(error),
        Ok(first) => match reader::spec_read_u16(data, cursor + 2) {
            Err(error) => Err(error),
            Ok(second) => Ok((first, second)),
        },
    }
}

/// The placement of a record, and the position after it. Offsets are signed,
/// point numbers are not.
pub open spec fn placement_at(data: Seq<u8>, cursor: int, flags: u16) -> Result<
    (ComponentPlacement, int),
    FontError,
> {
    let signed = flags & ARGS_ARE_XY_VALUES != 0;
    if flags & ARG_1_AND_2_ARE_WORDS != 0 {
        match two_words(data, cursor) {
            Err(error) => Err(error),
            Ok((first, second)) => Ok(
                (
                    if signed {
                        ComponentPlacement::Offset(
                            reader::signed16(first),
                            reader::signed16(second),
                        )
                    } else {
                        ComponentPlacement::Points(first, second)
                    },
                    cursor + 4,
                ),
            ),
        }
    } else {
        match two_bytes(data, cursor) {
            Err(error) => Err(error),
            Ok((first, second)) => Ok(
                (
                    if signed {
                        ComponentPlacement::Offset(reader::signed8(first), reader::signed8(second))
                    } else {
                        ComponentPlacement::Points(first as u16, second as u16)
                    },
                    cursor + 2,
                ),
            ),
        }
    }
}

/// More than one of the three transform forms is announced.
pub open spec fn transform_conflict(flags: u16) -> bool {
    let scale = flags & WE_HAVE_A_SCALE != 0;
    let two_scales = flags & WE_HAVE_AN_X_AND_Y_SCALE != 0;
    let matrix = flags & WE_HAVE_A_TWO_BY_TWO != 0;
    scale && two_scales || scale && matrix || two_scales && matrix
}

/// The transform of a record, and the position after it.
pub open spec fn transform_at(data: Seq<u8>, cursor: int, flags: u16) -> Result<
    (ComponentTransform, int),
    FontError,
> {
    if transform_conflict(flags) {
        Err(FontError::InvalidData("conflicting composite transform flags"))
    } else if flags & WE_HAVE_A_SCALE != 0 {
        match reader::spec_read_u16(data, cursor) {
            Err(error) => Err(error),
            Ok(scale) => Ok(
                (
                    ComponentTransform {
                        xx: reader::signed16(scale),
                        yx: 0,
                        xy: 0,
                        yy: reader::signed16(scale),
                    },
                    cursor + 2,
                ),
            ),
        }
    } else if flags & WE_HAVE_AN_X_AND_Y_SCALE != 0 {
        match two_words(data, cursor) {
            Err(error) => Err(error),
            Ok((xx, yy)) => Ok(
                (
                    ComponentTransform {
                        xx: reader::signed16(xx),
                        yx: 0,
                        xy: 0,
                        yy: reader::signed16(yy),
                    },
                    cursor + 4,
                ),
            ),
        }
    } else if flags & WE_HAVE_A_TWO_BY_TWO != 0 {
        match two_words(data, cursor) {
            Err(error) => Err(error),
            Ok((xx, yx)) => match two_words(data, cursor + 4) {
                Err(error) => Err(error),
                Ok((xy, yy)) => Ok(
                    (
                        ComponentTransform {
                            xx: reader::signed16(xx),
                            yx: reader::signed16(yx),
                            xy: reader::signed16(xy),
                            yy: reader::signed16(yy),
                        },
                        cursor + 8,
                    ),
                ),
            },
        }
    } else {
        Ok((ComponentTransform::IDENTITY(), cursor))
    }
}

/// The record at `cursor`, and the position after it.
pub open spec fn component_at(data: Seq<u8>, cursor: int) -> Result<
    (GlyphComponent, int),
    FontError,
> {
    match two_words(data, cursor) {
        Err(error) => Err(error),
        Ok((flags, glyph_id)) => match placement_at(data, cursor + 4, flags) {
            Err(error) => Err(error),
            Ok((placement, after)) => match transform_at(data, after, flags) {
                Err(error) => Err(error),
                Ok((transform, next)) => Ok(
                    (GlyphComponent { flags, glyph_id, placement, transform }, next),
                ),
            },
        },
    }
}

impl GlyphComponent {
    fn read_placement(reader: &mut GlyphReader<'_>, flags: u16) -> (r: Result<
        ComponentPlacement,
        FontError,
    >)
        ensures
            match (r, placement_at(old(reader).data@, old(reader).cursor as int, flags)) {
                (Ok(placement), Ok((expected, next))) => placement == expected && final(reader).cursor == next,
                (Err(error), Err(expected)) => error == expected,
                _ => false,
            },
            final(reader).data == old(reader).data,
    {
        let words = flags & ARG_1_AND_2_ARE_WORDS != 0;
        if flags & ARGS_ARE_XY_VALUES != 0 {
            let (x, y): (i16, i16) = if words {
                (reader.i16()?, reader.i16()?)
            } else {
                (to_signed8(reader.u8()?), to_signed8(reader.u8()?))
            };
            Ok(ComponentPlacement::Offset(x, y))
        } else {
            let (parent, child): (u16, u16) = if words {
                (reader.u16()?, reader.u16()?)
            } else {
                (reader.u8()? as u16, reader.u8()? as u16)
            };
            Ok(ComponentPlacement::Points(parent, child))
        }
    }

    fn read_transform(reader: &mut GlyphReader<'_>, flags: u16) -> (r: Result<
        ComponentTransform,
        FontError,
    >)
        ensures
            match (r, transform_at(old(reader).data@, old(reader).cursor as int, flags)) {
                (Ok(transform), Ok((expected, next))) => transform == expected && final(reader).cursor == next,
                (Err(error), Err(expected)) => error == expected,
                _ => false,
            },
            final(reader).data == old(reader).data,
    {
        let scale = flags & WE_HAVE_A_SCALE != 0;
        let two_scales = flags & WE_HAVE_AN_X_AND_Y_SCALE != 0;
        let matrix = flags & WE_HAVE_A_TWO_BY_TWO != 0;
        if scale && two_scales || scale && matrix || two_scales && matrix {
            return Err(invalid_data("conflicting composite transform flags"));
        }
        if scale {
            let factor = reader.f2dot14()?;
            Ok(ComponentTransform { xx: factor, yx: 0, xy: 0, yy: factor })
        } else if two_scales {
            let xx = reader.f2dot14()?;
            let yy = reader.f2dot14()?;
            Ok(ComponentTransform { xx, yx: 0, xy: 0, yy })
        } else if matrix {
            let xx = reader.f2dot14()?;
            let yx = reader.f2dot14()?;
            let xy = reader.f2dot14()?;
            let yy = reader.f2dot14()?;
            Ok(ComponentTransform { xx, yx, xy, yy })
        } else {
            Ok(ComponentTransform::IDENTITY())
        }
    }

    /// Reads one record and moves past it.
    pub fn read(reader: &mut GlyphReader<'_>) -> (r: Result<GlyphComponent, FontError>)
        ensures
            match (r, component_at(old(reader).data@, old(reader).cursor as int)) {
                (Ok(component), Ok((expected, next))) => component == expected && final(reader).cursor == next,
                (Err(error), Err(expected)) => error == expected,
                _ => false,
            },
            final(reader).data == old(reader).data,
    {
        let flags = reader.u16()?;
        let glyph_id = reader.u16()?;
        let placement = Self::read_placement(reader, flags)?;
        let transform = Self::read_transform(reader, flags)?;
        Ok(GlyphComponent { flags, glyph_id, placement, transform })
    }
}

/// A record takes at least six bytes, all of them inside the data.
pub proof fn component_advances(data: Seq<u8>, cursor: int)
    ensures
        component_at(data, cursor) matches Ok((component, next)) ==> cursor + 6 <= next
            <= data.len(),
{
}

// ---------------------------------------------------------------------------
// Attachment points
// ---------------------------------------------------------------------------

/// The place of the point with the given number, counting along all contours.
/// `passed` contours lie before the first of them. TrueType numbers four phantom
/// points after the last; they cannot be attached to.
pub open spec fn point_numbered(
    contours: Seq<Seq<GlyphPoint>>,
    passed: int,
    number: int,
) -> Result<PointRef, FontError>
    decreases contours.len() - passed,
{
    if !(0 <= passed < contours.len()) {
        if number < 4 {
            Err(FontError::Unsupported("composite attachment to phantom points is not supported"))
        } else {
            Err(FontError::InvalidData("composite attachment point is outside the glyph"))
        }
    } else if number < contours[passed].len() {
        Ok(PointRef { contour: passed as usize, point: number as usize })
    } else {
        point_numbered(contours, passed + 1, number - contours[passed].len())
    }
}

/// Finds the explicit point with the given number.
pub fn explicit_point(contours: &[Contour], index: u16) -> (r: Result<PointRef, FontError>)
    ensures
        r == point_numbered(glyph::contour_points(contours@), 0, index as int),
        r matches Ok(point) ==> point.within(glyph::contour_points(contours@)),
{
    let ghost all = glyph::contour_points(contours@);
    let mut remaining: usize = index as usize;
    let mut passed: usize = 0;
    while passed < contours.len()
        invariant
            passed <= contours@.len(),
            all == glyph::contour_points(contours@),
            point_numbered(all, 0, index as int) == point_numbered(
                all,
                passed as int,
                remaining as int,
            ),
        decreases contours@.len() - passed,
    {
        let count: usize = contours[passed].points.len();
        assert(all[passed as int] == contours@[passed as int].points@);
        if remaining < count {
            return Ok(PointRef { contour: passed, point: remaining });
        }
        remaining = remaining - count;
        passed = passed + 1;
    }
    if remaining < 4 {
        Err(FontError::Unsupported("composite attachment to phantom points is not supported"))
    } else {
        Err(invalid_data("composite attachment point is outside the glyph"))
    }
}

// ---------------------------------------------------------------------------
// Placing a component
// ---------------------------------------------------------------------------

/// The offset of this component passes through its transform. Neither flag, or
/// both, stand for the recommended default, an offset that does not.
pub open spec fn offset_scaled(flags: u16) -> bool {
    flags & SCALED_COMPONENT_OFFSET != 0 && flags & UNSCALED_COMPONENT_OFFSET == 0
}

/// A glyph without outline.
pub open spec fn no_outline() -> (Seq<Seq<GlyphPoint>>, Seq<ComponentStep>) {
    (Seq::empty(), Seq::empty())
}

/// The outline of a child glyph.
pub open spec fn outline_of(child: Option<GlyphModel>) -> (
    Seq<Seq<GlyphPoint>>,
    Seq<ComponentStep>,
) {
    match child {
        None => no_outline(),
        Some(glyph) => (glyph.contours, glyph.steps),
    }
}

/// How a component moves, given what was placed before and its own contours.
pub open spec fn step_placement(
    placed: Seq<Seq<GlyphPoint>>,
    contours: Seq<Seq<GlyphPoint>>,
    component: GlyphComponent,
) -> Result<StepPlacement, FontError> {
    match component.placement {
        ComponentPlacement::Offset(x, y) => Ok(
            StepPlacement::Offset { x, y, scaled: offset_scaled(component.flags) },
        ),
        ComponentPlacement::Points(parent_number, child_number) => match point_numbered(
            placed,
            0,
            parent_number as int,
        ) {
            Err(error) => Err(error),
            Ok(parent) => match point_numbered(contours, 0, child_number as int) {
                Err(error) => Err(error),
                Ok(child) => Ok(
                    StepPlacement::Attach { parent, child: child.shifted(placed.len() as int) },
                ),
            },
        },
    }
}

/// Puts a component behind what was placed before: first whatever places its own
/// components, then the step that places the whole.
pub open spec fn with_component(
    glyph: GlyphModel,
    child: Option<GlyphModel>,
    component: GlyphComponent,
) -> Result<GlyphModel, FontError> {
    let (contours, steps) = outline_of(child);
    let base = glyph.contours.len() as int;
    match step_placement(glyph.contours, contours, component) {
        Err(error) => Err(error),
        Ok(placement) => Ok(
            GlyphModel {
                bounds: glyph.bounds,
                contours: glyph.contours + contours,
                steps: (glyph.steps + shifted_steps(steps, base)).push(
                    ComponentStep {
                        start: base as usize,
                        end: (base + contours.len()) as usize,
                        transform: component.transform,
                        placement,
                    },
                ),
            },
        ),
    }
}

/// Placing a component keeps all steps inside the outline.
pub proof fn with_component_within(
    glyph: GlyphModel,
    child: Option<GlyphModel>,
    component: GlyphComponent,
    placed: GlyphModel,
)
    requires
        with_component(glyph, child, component) == Ok::<_, FontError>(placed),
        steps_within(glyph.steps, glyph.contours),
        child matches Some(child) ==> steps_within(child.steps, child.contours),
        placed.contours.len() <= usize::MAX,
    ensures
        steps_within(placed.steps, placed.contours),
{
    let (contours, steps) = outline_of(child);
    let base = glyph.contours.len() as int;
    if let ComponentPlacement::Points(parent, child) = component.placement {
        point_numbered_within(glyph.contours, 0, parent as int);
        point_numbered_within(contours, 0, child as int);
        let parent_ref = point_numbered(glyph.contours, 0, parent as int)->Ok_0;
        let child_ref = point_numbered(contours, 0, child as int)->Ok_0;
        assert(placed.contours[parent_ref.contour as int]
            == glyph.contours[parent_ref.contour as int]);
        assert(placed.contours[child_ref.contour + base] == contours[child_ref.contour as int]);
    }
    assert forall|i: int| 0 <= i < placed.steps.len() implies (#[trigger] placed.steps[i]).within(
        placed.contours,
    ) by {
        let before = glyph.steps.len();
        if i < before {
            let step = glyph.steps[i];
            assert(placed.steps[i] == step);
            assert(step.within(glyph.contours));
        } else if i < before + steps.len() {
            let step = steps[i - before];
            assert(placed.steps[i] == step.shifted(base));
            assert(step.within(contours));
            if let StepPlacement::Attach { parent, child } = step.placement {
                assert(placed.contours[parent.contour + base] == contours[parent.contour as int]);
                assert(placed.contours[child.contour + base] == contours[child.contour as int]);
            }
        }
    }
}

/// A point that was found exists.
pub proof fn point_numbered_within(contours: Seq<Seq<GlyphPoint>>, passed: int, number: int)
    requires
        contours.len() <= usize::MAX,
        0 <= passed,
        0 <= number <= 0xffff,
    ensures
        point_numbered(contours, passed, number) matches Ok(point) ==> point.within(contours),
    decreases contours.len() - passed,
{
    if passed < contours.len() && number >= contours[passed].len() {
        point_numbered_within(contours, passed + 1, number - contours[passed].len());
    }
}

/// Puts a component behind what was placed before.
pub fn place_component(placed: &mut Glyph, child: Option<Glyph>, component: GlyphComponent) -> (r:
    Result<(), FontError>)
    requires
        steps_within(old(placed).model().steps, old(placed).model().contours),
        child matches Some(child) ==> steps_within(child.model().steps, child.model().contours),
    ensures
        match (
            r,
            with_component(
                old(placed).model(),
                glyph::optional_model(child),
                component,
            ),
        ) {
            (Ok(_), Ok(expected)) => final(placed).model() == expected,
            (Err(error), Err(expected)) => error == expected && *final(placed) == *old(placed),
            _ => false,
        },
        r is Ok ==> steps_within(final(placed).model().steps, final(placed).model().contours),
{
    let ghost before = placed.model();
    let ghost child_model = glyph::optional_model(child);
    let (mut contours, steps): (Vec<Contour>, Vec<ComponentStep>) = match child {
        Some(child) => (child.contours, child.steps),
        None => (Vec::new(), Vec::new()),
    };
    let ghost added = glyph::contour_points(contours@);
    assert(added =~= outline_of(child_model).0);
    assert(steps@ =~= outline_of(child_model).1);
    let base: usize = placed.contours.len();
    let count: usize = contours.len();
    let placement = match component.placement {
        ComponentPlacement::Offset(x, y) => {
            let scaled = component.flags & SCALED_COMPONENT_OFFSET != 0 && component.flags
                & UNSCALED_COMPONENT_OFFSET == 0;
            StepPlacement::Offset { x, y, scaled }
        },
        ComponentPlacement::Points(parent_index, child_index) => {
            let parent = explicit_point(placed.contours.as_slice(), parent_index)?;
            let child = explicit_point(contours.as_slice(), child_index)?;
            StepPlacement::Attach { parent, child }
        },
    };
    let ghost old_contours = placed.contours@;
    let ghost new_contours = contours@;
    placed.contours.append(&mut contours);
    assert(glyph::contour_points(placed.contours@) =~= before.contours + added);
    let end: usize = placed.contours.len();
    let placement = match placement {
        StepPlacement::Offset { x, y, scaled } => StepPlacement::Offset { x, y, scaled },
        StepPlacement::Attach { parent, child } => StepPlacement::Attach {
            parent,
            child: PointRef { contour: child.contour + base, point: child.point },
        },
    };
    let mut index: usize = 0;
    assert(placed.steps@ =~= before.steps + shifted_steps(steps@, base as int).take(0));
    while index < steps.len()
        invariant
            index <= steps@.len(),
            base + added.len() == end,
            end <= usize::MAX,
            steps_within(steps@, added),
            placed.contours@ == old_contours + new_contours,
            placed.bounds == before.bounds,
            placed.steps@ == before.steps + shifted_steps(steps@, base as int).take(index as int),
        decreases steps@.len() - index,
    {
        assert(steps@[index as int].within(added));
        placed.steps.push(steps[index].shift(base));
        index = index + 1;
        assert(placed.steps@ =~= before.steps + shifted_steps(steps@, base as int).take(
            index as int,
        ));
    }
    assert(shifted_steps(steps@, base as int).take(index as int) =~= shifted_steps(
        steps@,
        base as int,
    ));
    placed.steps.push(
        ComponentStep { start: base, end, transform: component.transform, placement },
    );
    proof {
        with_component_within(before, child_model, component, placed.model());
    }
    Ok(())
}

} // verus!
