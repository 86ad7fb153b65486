//! How a font file stores composite glyphs, and what loading makes of them.

use super::component;
use super::component::{
    ComponentPlacement, ComponentStep, GlyphComponent, PointRef, StepPlacement,
};
use super::error::FontError;
use super::font;
use super::font::{FontModel, GlyphLoadBudget};
use super::glyph;
use super::glyph::{GlyphModel, GlyphPoint};
use super::reader;
use super::stored;
use vstd::prelude::*;

verus! {

// ---------------------------------------------------------------------------
// Records
// ---------------------------------------------------------------------------

/// The two arguments of a record.
pub open spec fn arguments(placement: ComponentPlacement) -> (int, int) {
    match placement {
        ComponentPlacement::Offset(x, y) => (x as int, y as int),
        ComponentPlacement::Points(parent, child) => (parent as int, child as int),
    }
}

/// The arguments as bytes: in two bytes each if bit 0 says so, else in one.
pub open spec fn argument_bytes(component: GlyphComponent) -> Seq<u8> {
    let (first, second) = arguments(component.placement);
    if component.flags & 0x0001 != 0 {
        stored::word(first) + stored::word(second)
    } else {
        seq![(first % 0x100) as u8, (second % 0x100) as u8]
    }
}

/// The transform as bytes: one scale for bit 3, two for bit 6, a matrix for bit 7.
pub open spec fn transform_bytes(component: GlyphComponent) -> Seq<u8> {
    let transform = component.transform;
    if component.flags & 0x0008 != 0 {
        stored::word(transform.xx as int)
    } else if component.flags & 0x0040 != 0 {
        stored::word(transform.xx as int) + stored::word(transform.yy as int)
    } else if component.flags & 0x0080 != 0 {
        (stored::word(transform.xx as int) + stored::word(transform.yx as int)) + (stored::word(
            transform.xy as int,
        ) + stored::word(transform.yy as int))
    } else {
        Seq::empty()
    }
}

/// A record as bytes: flags, glyph number, arguments, transform.
pub open spec fn component_bytes(component: GlyphComponent) -> Seq<u8> {
    (stored::word(component.flags as int) + stored::word(component.glyph_id as int)) + (
    argument_bytes(component) + transform_bytes(component))
}

/// The flags fit the record: bit 1 tells offsets from point numbers, and the transform
/// is one that the flags can store.
pub open spec fn component_storable(component: GlyphComponent) -> bool {
    let flags = component.flags;
    let transform = component.transform;
    let (first, second) = arguments(component.placement);
    let scale = flags & 0x0008 != 0;
    let two_scales = flags & 0x0040 != 0;
    let matrix = flags & 0x0080 != 0;
    &&& component.placement is Offset <==> flags & 0x0002 != 0
    &&& flags & 0x0001 == 0 && component.placement is Offset ==> -0x80 <= first < 0x80 && -0x80
        <= second < 0x80
    &&& flags & 0x0001 == 0 && component.placement is Points ==> first < 0x100 && second < 0x100
    &&& !(scale && two_scales) && !(scale && matrix) && !(two_scales && matrix)
    &&& !matrix ==> transform.yx == 0 && transform.xy == 0
    &&& scale ==> transform.xx == transform.yy
    &&& !scale && !two_scales && !matrix ==> transform.xx == 16384 && transform.yy == 16384
}

proof fn two_words_are_read(data: Seq<u8>, cursor: int, first: int, second: int)
    requires
        stored::stands(data, cursor, stored::word(first) + stored::word(second)),
        -0x8000 <= first < 0x1_0000,
        -0x8000 <= second < 0x1_0000,
        data.len() <= usize::MAX,
    ensures
        component::two_words(data, cursor) matches Ok((a, b)) && (first >= 0 ==> a == first) && (
        second >= 0 ==> b == second) && (first < 0x8000 ==> reader::signed16(a) == first) && (second
            < 0x8000 ==> reader::signed16(b) == second),
{
    stored::standing_parts(data, cursor, stored::word(first), stored::word(second));
    if first >= 0 {
        stored::words_are_read(data, cursor, first);
    }
    if first < 0x8000 {
        stored::signed_words_are_read(data, cursor, first);
    }
    if second >= 0 {
        stored::words_are_read(data, cursor + 2, second);
    }
    if second < 0x8000 {
        stored::signed_words_are_read(data, cursor + 2, second);
    }
}

proof fn placements_are_read(data: Seq<u8>, cursor: int, component: GlyphComponent)
    requires
        component_storable(component),
        stored::stands(data, cursor, argument_bytes(component)),
        data.len() <= usize::MAX,
    ensures
        component::placement_at(data, cursor, component.flags) == Ok::<_, FontError>(
            (component.placement, cursor + argument_bytes(component).len()),
        ),
{
    let (first, second) = arguments(component.placement);
    if component.flags & 0x0001 != 0 {
        two_words_are_read(data, cursor, first, second);
    } else {
        stored::standing_bytes(data, cursor, argument_bytes(component), 0);
        stored::standing_bytes(data, cursor, argument_bytes(component), 1);
    }
}

proof fn transforms_are_read(data: Seq<u8>, cursor: int, component: GlyphComponent)
    requires
        component_storable(component),
        stored::stands(data, cursor, transform_bytes(component)),
        data.len() <= usize::MAX,
    ensures
        component::transform_at(data, cursor, component.flags) == Ok::<_, FontError>(
            (component.transform, cursor + transform_bytes(component).len()),
        ),
{
    let transform = component.transform;
    let xx = transform.xx as int;
    let yx = transform.yx as int;
    let xy = transform.xy as int;
    let yy = transform.yy as int;
    if component.flags & 0x0008 != 0 {
        stored::signed_words_are_read(data, cursor, xx);
    } else if component.flags & 0x0040 != 0 {
        two_words_are_read(data, cursor, xx, yy);
    } else if component.flags & 0x0080 != 0 {
        stored::standing_parts(
            data,
            cursor,
            stored::word(xx) + stored::word(yx),
            stored::word(xy) + stored::word(yy),
        );
        two_words_are_read(data, cursor, xx, yx);
        two_words_are_read(data, cursor + 4, xy, yy);
    }
}

/// The record of a component is read back, and the next is looked for behind it.
pub proof fn components_are_read(data: Seq<u8>, cursor: int, component: GlyphComponent)
    requires
        component_storable(component),
        stored::stands(data, cursor, component_bytes(component)),
        data.len() <= usize::MAX,
    ensures
        component::component_at(data, cursor) == Ok::<_, FontError>(
            (component, cursor + component_bytes(component).len()),
        ),
{
    let head = stored::word(component.flags as int) + stored::word(component.glyph_id as int);
    let tail = argument_bytes(component) + transform_bytes(component);
    stored::standing_parts(data, cursor, head, tail);
    stored::standing_parts(
        data,
        cursor + 4,
        argument_bytes(component),
        transform_bytes(component),
    );
    two_words_are_read(data, cursor, component.flags as int, component.glyph_id as int);
    placements_are_read(data, cursor + 4, component);
    transforms_are_read(data, cursor + 4 + argument_bytes(component).len(), component);
}

// ---------------------------------------------------------------------------
// Placing components
// ---------------------------------------------------------------------------

/// Points are numbered along all contours: the k-th point of a contour has k more than
/// there are points on the contours before it. Of the numbers behind the last point the
/// first four are phantom points, which are not supported, and the rest are wrong.
pub proof fn points_are_numbered_along_contours(
    contours: Seq<Seq<GlyphPoint>>,
    passed: int,
    number: int,
    contour: int,
)
    requires
        0 <= passed <= contour <= contours.len() <= usize::MAX,
        0 <= number <= 0xffff,
        contour < contours.len() ==> number < points_between(contours, passed, contour + 1),
        points_between(contours, passed, contour) <= number,
    ensures
        ({
            let left = number - points_between(contours, passed, contour);
            component::point_numbered(contours, passed, number) == if contour < contours.len() {
                Ok::<_, FontError>(PointRef { contour: contour as usize, point: left as usize })
            } else if left < 4 {
                Err(
                    FontError::Unsupported(
                        "composite attachment to phantom points is not supported",
                    ),
                )
            } else {
                Err(
                    FontError::InvalidData("composite attachment point is outside the glyph"),
                )
            }
        }),
    decreases contour - passed,
{
    if passed < contour {
        first_of_points(contours, passed, contour);
        if contour < contours.len() {
            first_of_points(contours, passed, contour + 1);
        }
        nothing_negative(contours, passed + 1, contour);
        points_are_numbered_along_contours(
            contours,
            passed + 1,
            number - contours[passed].len(),
            contour,
        );
    }
}

/// The number of points on the contours `low..high`.
pub open spec fn points_between(contours: Seq<Seq<GlyphPoint>>, low: int, high: int) -> int
    decreases high - low,
{
    if low >= high {
        0
    } else {
        points_between(contours, low, high - 1) + contours[high - 1].len()
    }
}

proof fn first_of_points(contours: Seq<Seq<GlyphPoint>>, low: int, high: int)
    requires
        low < high,
    ensures
        points_between(contours, low, high) == contours[low].len() + points_between(
            contours,
            low + 1,
            high,
        ),
    decreases high - low,
{
    reveal_with_fuel(points_between, 2);
    if low + 1 < high {
        first_of_points(contours, low, high - 1);
    }
}

proof fn nothing_negative(contours: Seq<Seq<GlyphPoint>>, low: int, high: int)
    ensures
        points_between(contours, low, high) >= 0,
    decreases high - low,
{
    if low < high {
        nothing_negative(contours, low, high - 1);
    }
}

/// The contours of a child; none without an outline.
pub open spec fn child_contours(child: Option<GlyphModel>) -> Seq<Seq<GlyphPoint>> {
    match child {
        Some(glyph) => glyph.contours,
        None => Seq::empty(),
    }
}

/// The steps of a child; none without an outline.
pub open spec fn child_steps(child: Option<GlyphModel>) -> Seq<ComponentStep> {
    match child {
        Some(glyph) => glyph.steps,
        None => Seq::empty(),
    }
}

/// The step does to the contours from `by` on what another does to the first.
pub open spec fn moved_up(step: ComponentStep, original: ComponentStep, by: int) -> bool {
    &&& step.start == original.start + by
    &&& step.end == original.end + by
    &&& step.transform == original.transform
    &&& match (step.placement, original.placement) {
        (
            StepPlacement::Offset { x, y, scaled },
            StepPlacement::Offset { x: other_x, y: other_y, scaled: other_scaled },
        ) => x == other_x && y == other_y && scaled == other_scaled,
        (
            StepPlacement::Attach { parent, child },
            StepPlacement::Attach { parent: other_parent, child: other_child },
        ) => {
            &&& parent.contour == other_parent.contour + by
            &&& parent.point == other_parent.point
            &&& child.contour == other_child.contour + by
            &&& child.point == other_child.point
        },
        _ => false,
    }
}

/// A component goes behind what was placed before, which stays as it is: its contours
/// behind the contours, its steps behind the steps. One step more transforms and moves
/// all of its contours, and no others. An offset goes through the transform only where
/// bit 11 is set and bit 12 is not; attached components name a point of what was placed
/// before and one of their own.
pub proof fn components_are_placed_behind(
    before: GlyphModel,
    child: Option<GlyphModel>,
    part: GlyphComponent,
    after: GlyphModel,
)
    requires
        component::with_component(before, child, part) == Ok::<_, FontError>(after),
        component::steps_within(child_steps(child), child_contours(child)),
        after.contours.len() <= usize::MAX,
        before.contours.len() <= usize::MAX,
    ensures
        after.bounds == before.bounds,
        after.contours.len() == before.contours.len() + child_contours(child).len(),
        forall|i: int|
            0 <= i < before.contours.len() ==> #[trigger] after.contours[i] == before.contours[i],
        forall|i: int|
            0 <= i < child_contours(child).len() ==> after.contours[before.contours.len() + i]
                == #[trigger] child_contours(child)[i],
        after.steps.len() == before.steps.len() + child_steps(child).len() + 1,
        forall|i: int| 0 <= i < before.steps.len() ==> #[trigger] after.steps[i] == before.steps[i],
        forall|i: int|
            0 <= i < child_steps(child).len() ==> moved_up(
                after.steps[before.steps.len() + i],
                #[trigger] child_steps(child)[i],
                before.contours.len() as int,
            ),
        ({
            let last = after.steps.last();
            &&& last.start == before.contours.len()
            &&& last.end == after.contours.len()
            &&& last.transform == part.transform
            &&& match part.placement {
                ComponentPlacement::Offset(x, y) => last.placement == (StepPlacement::Offset {
                    x,
                    y,
                    scaled: part.flags & 0x0800 != 0 && part.flags & 0x1000 == 0,
                }),
                ComponentPlacement::Points(parent_number, child_number) => {
                    &&& last.placement matches StepPlacement::Attach { parent, child: own }
                    &&& component::point_numbered(before.contours, 0, parent_number as int)
                        == Ok::<_, FontError>(parent)
                    &&& component::point_numbered(child_contours(child), 0, child_number as int)
                        matches Ok(found)
                    &&& own.contour == found.contour + before.contours.len()
                    &&& own.point == found.point
                },
            }
        }),
{
    let base = before.contours.len() as int;
    let steps = child_steps(child);
    let contours = child_contours(child);
    let shifted = component::shifted_steps(steps, base);
    assert((component::outline_of(child)) == (contours, steps));
    assert(after.steps == (before.steps + shifted).push(after.steps.last()));
    assert forall|i: int| 0 <= i < steps.len() implies moved_up(
        after.steps[before.steps.len() + i],
        #[trigger] steps[i],
        base,
    ) by {
        assert(steps[i].within(contours));
        assert(after.steps[before.steps.len() + i] == steps[i].shifted(base));
    }
    if let ComponentPlacement::Points(parent_number, child_number) = part.placement {
        component::point_numbered_within(contours, 0, child_number as int);
    }
}

// ---------------------------------------------------------------------------
// Loading
// ---------------------------------------------------------------------------

/// The bytes of a glyph.
pub open spec fn glyph_bytes(read: FontModel, glyph_id: u16) -> Seq<u8> {
    let (start, end) = read.glyph_range(glyph_id)->Some_0;
    read.data.subrange(start, end)
}

/// A glyph without bytes has no outline. One with a number of contours is decoded as it
/// stands, whatever it is a component of, as long as its points are within the budget.
pub proof fn simple_glyphs_are_loaded(
    read: FontModel,
    glyph_id: u16,
    active: Seq<u16>,
    budget: GlyphLoadBudget,
)
    requires
        read.valid(),
        read.data.len() <= usize::MAX,
        glyph_id < read.maxp.num_glyphs,
        active.len() < 32,
        !active.contains(glyph_id),
        budget.visits > 0,
    ensures
        ({
            let bytes = glyph_bytes(read, glyph_id);
            let loaded = font::spec_load(read, glyph_id, active, budget).0;
            &&& bytes.len() == 0 ==> loaded == Ok::<_, FontError>(None::<GlyphModel>)
            &&& bytes.len() >= 10 && reader::i16_at(bytes, 0) >= 0 ==> match glyph::spec_simple_glyph(
                bytes,
            ) {
                Err(error) => loaded == Err::<Option<GlyphModel>, FontError>(error),
                Ok(outline) => loaded == if glyph::point_total(outline.contours) <= budget.points {
                    Ok::<_, FontError>(Some(outline))
                } else {
                    Err(FontError::InvalidData("glyph expansion exceeds point limit"))
                },
            }
        }),
{
    font::glyph_ranges_adjoin(read, glyph_id);
}

/// A part of a composite glyph: where its record stands, the record, the glyph it names,
/// and the composite with it.
pub struct LoadedPart {
    pub cursor: int,
    pub component: GlyphComponent,
    pub child: Option<GlyphModel>,
    pub placed: GlyphModel,
}

/// The part is read from where the one before it ends, its glyph is loaded, and it is
/// placed behind the parts before it.
pub open spec fn part_follows(
    read: FontModel,
    data: Seq<u8>,
    active: Seq<u16>,
    cursor: int,
    before: GlyphModel,
    part: LoadedPart,
) -> bool {
    &&& part.cursor == cursor
    &&& component::component_at(data, cursor) matches Ok((found, _)) && found == part.component
    &&& exists|budget: GlyphLoadBudget|
        (#[trigger] font::spec_load(read, part.component.glyph_id, active, budget)).0 == Ok::<
            _,
            FontError,
        >(part.child)
    &&& component::with_component(before, part.child, part.component) == Ok::<_, FontError>(
        part.placed,
    )
}

/// The parts follow one another. Bit 5 says of each that another one follows.
pub open spec fn parts_follow(
    read: FontModel,
    data: Seq<u8>,
    active: Seq<u16>,
    cursor: int,
    before: GlyphModel,
    parts: Seq<LoadedPart>,
) -> bool
    decreases parts.len(),
{
    &&& parts.len() > 0
    &&& part_follows(read, data, active, cursor, before, parts[0])
    &&& if parts[0].component.flags & 0x0020 != 0 {
        parts_follow(
            read,
            data,
            active,
            component::component_at(data, cursor)->Ok_0.1,
            parts[0].placed,
            parts.drop_first(),
        )
    } else {
        parts.len() == 1
    }
}

/// Some part announces instructions, by bit 8.
pub open spec fn instructions_announced(parts: Seq<LoadedPart>) -> bool {
    exists|i: int| 0 <= i < parts.len() && (#[trigger] parts[i]).component.flags & 0x0100 != 0
}

/// The instructions stand at `at`, with their number before them.
pub open spec fn instructions_stand(data: Seq<u8>, at: int) -> bool {
    at + 2 <= data.len() && at + 2 + reader::u16_at(data, at) <= data.len()
}

/// A composite glyph is accepted at its end exactly if it announces no instructions or they
/// stand there, and stays what it is.
pub proof fn announced_instructions_must_stand(
    data: Seq<u8>,
    cursor: int,
    outline: GlyphModel,
    announced: bool,
)
    requires
        data.len() <= usize::MAX,
    ensures
        font::check_instructions(data, cursor, outline, announced) is Ok <==> !announced
            || instructions_stand(data, cursor),
        font::check_instructions(data, cursor, outline, announced) matches Ok(kept) ==> kept
            == outline,
{
}

proof fn loaded_parts(
    read: FontModel,
    data: Seq<u8>,
    cursor: int,
    before: GlyphModel,
    instructions: bool,
    active: Seq<u16>,
    budget: GlyphLoadBudget,
) -> (parts: Seq<LoadedPart>)
    requires
        data.len() <= usize::MAX,
        font::spec_load_components(read, data, cursor, before, instructions, active, budget).0 is Ok,
    ensures
        parts_follow(read, data, active, cursor, before, parts),
        font::spec_load_components(read, data, cursor, before, instructions, active, budget).0
            == Ok::<_, FontError>(parts.last().placed),
        instructions || instructions_announced(parts) ==> instructions_stand(
            data,
            component::component_at(data, parts.last().cursor)->Ok_0.1,
        ),
        cursor == 10 ==> parts[0].component.placement is Offset,
    decreases 32 - active.len(), data.len() - cursor,
{
    let (found, next) = component::component_at(data, cursor)->Ok_0;
    component::component_advances(data, cursor);
    let (child, left) = font::spec_load(read, found.glyph_id, active, budget);
    let placed = component::with_component(before, child->Ok_0, found)->Ok_0;
    let part = LoadedPart { cursor, component: found, child: child->Ok_0, placed };
    assert(part_follows(read, data, active, cursor, before, part));
    if found.flags & 0x0020 != 0 {
        let announced = instructions || found.flags & 0x0100 != 0;
        let rest = loaded_parts(read, data, next, placed, announced, active, left);
        let parts = seq![part] + rest;
        assert(parts.drop_first() =~= rest);
        assert(parts.last() == rest.last());
        if instructions_announced(parts) && !announced {
            let i = choose|i: int|
                0 <= i < parts.len() && (#[trigger] parts[i]).component.flags & 0x0100 != 0;
            assert(rest[i - 1] == parts[i]);
            assert(instructions_announced(rest));
        }
        parts
    } else {
        let parts = seq![part];
        announced_instructions_must_stand(
            data,
            next,
            placed,
            instructions || found.flags & 0x0100 != 0,
        );
        if instructions_announced(parts) {
            let i = choose|i: int|
                0 <= i < parts.len() && (#[trigger] parts[i]).component.flags & 0x0100 != 0;
            assert(parts[i] == part);
        }
        assert(parts.drop_first() =~= Seq::empty());
        parts
    }
}

/// A composite glyph is made of its parts, in the order of their records: each is loaded
/// by its number, and placed behind those before it. It starts from nothing and has the
/// bounds of its own header. The first part has an offset, and the instructions stand behind
/// the last if a part announces them.
pub proof fn composite_glyphs_are_made_of_parts(
    read: FontModel,
    glyph_id: u16,
    active: Seq<u16>,
    budget: GlyphLoadBudget,
    outline: GlyphModel,
) -> (parts: Seq<LoadedPart>)
    requires
        read.valid(),
        read.data.len() <= usize::MAX,
        font::spec_load(read, glyph_id, active, budget).0 == Ok::<_, FontError>(Some(outline)),
        reader::i16_at(glyph_bytes(read, glyph_id), 0) < 0,
    ensures
        ({
            let bytes = glyph_bytes(read, glyph_id);
            let nothing = GlyphModel {
                bounds: glyph::GlyphBounds {
                    x_min: reader::i16_at(bytes, 2),
                    y_min: reader::i16_at(bytes, 4),
                    x_max: reader::i16_at(bytes, 6),
                    y_max: reader::i16_at(bytes, 8),
                },
                contours: Seq::empty(),
                steps: Seq::empty(),
            };
            &&& parts_follow(read, bytes, active.push(glyph_id), 10, nothing, parts)
            &&& outline == parts.last().placed
            &&& parts[0].component.placement is Offset
            &&& instructions_announced(parts) ==> instructions_stand(
                bytes,
                component::component_at(bytes, parts.last().cursor)->Ok_0.1,
            )
        }),
{
    font::glyph_ranges_adjoin(read, glyph_id);
    let bytes = glyph_bytes(read, glyph_id);
    let left = GlyphLoadBudget { visits: (budget.visits - 1) as usize, points: budget.points };
    let nothing = GlyphModel {
        bounds: glyph::bounds_at(bytes),
        contours: Seq::empty(),
        steps: Seq::empty(),
    };
    loaded_parts(read, bytes, 10, nothing, false, active.push(glyph_id), left)
}

/// A composite glyph of one part is loaded if the part is, if it is placed by an offset, and
/// if it announces neither another part nor instructions.
pub proof fn composites_of_one_part_are_loaded(
    read: FontModel,
    glyph_id: u16,
    active: Seq<u16>,
    budget: GlyphLoadBudget,
    part: GlyphComponent,
    child: Option<GlyphModel>,
    placed: GlyphModel,
)
    requires
        read.valid(),
        read.data.len() <= usize::MAX,
        glyph_id < read.maxp.num_glyphs,
        active.len() < 32,
        !active.contains(glyph_id),
        budget.visits > 0,
        glyph_bytes(read, glyph_id).len() >= 10,
        reader::i16_at(glyph_bytes(read, glyph_id), 0) < 0,
        component_storable(part),
        stored::stands(glyph_bytes(read, glyph_id), 10, component_bytes(part)),
        part.placement is Offset,
        part.flags & 0x0020 == 0,
        part.flags & 0x0100 == 0,
        font::spec_load(
            read,
            part.glyph_id,
            active.push(glyph_id),
            GlyphLoadBudget { visits: (budget.visits - 1) as usize, points: budget.points },
        ).0 == Ok::<_, FontError>(child),
        component::with_component(
            GlyphModel {
                bounds: glyph::bounds_at(glyph_bytes(read, glyph_id)),
                contours: Seq::empty(),
                steps: Seq::empty(),
            },
            child,
            part,
        ) == Ok::<_, FontError>(placed),
    ensures
        font::spec_load(read, glyph_id, active, budget).0 == Ok::<_, FontError>(Some(placed)),
{
    font::glyph_ranges_adjoin(read, glyph_id);
    components_are_read(glyph_bytes(read, glyph_id), 10, part);
}

} // verus!
