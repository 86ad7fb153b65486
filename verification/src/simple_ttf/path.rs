//! Conversion of contours into drawing commands.
//!
//! Commands name points of the outline instead of repeating their coordinates, so
//! that they hold whatever moves the points of a composite glyph.

use super::component::PointRef;
use super::glyph;
use super::glyph::{Contour, Glyph, GlyphPoint};
use vstd::prelude::*;

verus! {

/// A point of a path.
#[derive(Debug, Clone, Copy, PartialEq, Eq, Structural)]
pub enum PathPoint {
    /// A point of the outline.
    Explicit(PointRef),
    /// The point halfway between two control points that follow each other.
    Midpoint(PointRef, PointRef),
}

/// Drawing operation produced from a TrueType outline.
///
/// Each contour starts with [`PathCommand::MoveTo`] and is closed by its final
/// line or quadratic command. A separate close-path operation is therefore not
/// required.
#[derive(Debug, Clone, Copy, PartialEq, Eq, Structural)]
pub enum PathCommand {
    /// Starts a new contour at the supplied point.
    MoveTo(PathPoint),
    /// Adds a straight segment from the current point.
    LineTo(PathPoint),
    /// Adds a quadratic Bezier segment from the current point.
    QuadTo {
        /// Quadratic control point.
        control: PathPoint,
        /// On-curve endpoint of the segment.
        end: PathPoint,
    },
}

impl PathCommand {
    /// The point at which the command leaves the pen.
    pub open spec fn end_point(self) -> PathPoint {
        match self {
            PathCommand::MoveTo(point) => point,
            PathCommand::LineTo(point) => point,
            PathCommand::QuadTo { end, .. } => end,
        }
    }
}

/// The point of contour `contour` with the given place on it.
pub open spec fn explicit(contour: usize, point: int) -> PathPoint {
    PathPoint::Explicit(PointRef { contour, point: point as usize })
}

/// The place that follows `step` places after `start` on a closed walk.
pub open spec fn around(length: int, start: int, step: int) -> int {
    if start + step < length {
        start + step
    } else {
        start + step - length
    }
}

/// Whether a path point lies on the curve. Midpoints do.
pub open spec fn on_curve(points: Seq<GlyphPoint>, point: PathPoint) -> bool {
    match point {
        PathPoint::Explicit(place) => points[place.point as int].on_curve,
        PathPoint::Midpoint(_, _) => true,
    }
}

/// The first `count` points of a contour, with the implied point after every
/// control point that is followed by another.
pub open spec fn expanded_upto(points: Seq<GlyphPoint>, contour: usize, count: nat) -> Seq<
    PathPoint,
>
    decreases count,
{
    if count == 0 {
        Seq::empty()
    } else {
        let index = count - 1;
        let next = around(points.len() as int, index, 1);
        let so_far = expanded_upto(points, contour, index as nat).push(explicit(contour, index));
        if !points[index].on_curve && !points[next].on_curve {
            so_far.push(
                PathPoint::Midpoint(
                    PointRef { contour, point: index as usize },
                    PointRef { contour, point: next as usize },
                ),
            )
        } else {
            so_far
        }
    }
}

/// All points of a contour, implied points included.
pub open spec fn expanded(points: Seq<GlyphPoint>, contour: usize) -> Seq<PathPoint> {
    expanded_upto(points, contour, points.len())
}

/// The first place from `from` on that lies on the curve; the length if none does.
pub open spec fn first_on_curve(points: Seq<GlyphPoint>, all: Seq<PathPoint>, from: int) -> int
    decreases all.len() - from,
{
    if from >= all.len() {
        all.len() as int
    } else if on_curve(points, all[from]) {
        from
    } else {
        first_on_curve(points, all, from + 1)
    }
}

/// The commands after `steps` places of the walk from `start`, and the control
/// point that waits for its end.
pub open spec fn path_upto(
    points: Seq<GlyphPoint>,
    all: Seq<PathPoint>,
    start: int,
    steps: nat,
) -> (Seq<PathCommand>, Option<PathPoint>)
    decreases steps,
{
    if steps == 0 {
        (seq![PathCommand::MoveTo(all[start])], None)
    } else {
        let (commands, waiting) = path_upto(points, all, start, (steps - 1) as nat);
        let point = all[around(all.len() as int, start, steps as int)];
        if on_curve(points, point) {
            (
                commands.push(
                    match waiting {
                        Some(control) => PathCommand::QuadTo { control, end: point },
                        None => PathCommand::LineTo(point),
                    },
                ),
                None,
            )
        } else {
            (commands, Some(point))
        }
    }
}

/// The commands of one contour. The walk starts at the first point on the curve
/// and returns to it.
pub open spec fn path_of(points: Seq<GlyphPoint>, contour: usize) -> Seq<PathCommand> {
    let all = expanded(points, contour);
    let start = first_on_curve(points, all, 0);
    if start >= all.len() {
        Seq::empty()
    } else {
        path_upto(points, all, start, all.len()).0
    }
}

/// The commands of the first `count` contours, one contour after the other.
pub open spec fn paths_upto(contours: Seq<Seq<GlyphPoint>>, count: nat) -> Seq<PathCommand>
    decreases count,
{
    if count == 0 {
        Seq::empty()
    } else {
        paths_upto(contours, (count - 1) as nat) + path_of(
            contours[count - 1],
            (count - 1) as usize,
        )
    }
}

impl Contour {
    /// Inserts the implied points, so that no two control points follow each other.
    fn expand(&self, contour: usize) -> (r: Vec<PathPoint>)
        ensures
            r@ == expanded(self.points@, contour),
            self.points@.len() == 0 ==> r@.len() == 0,
            forall|i: int|
                0 <= i < r@.len() ==> ((#[trigger] r@[i]) matches PathPoint::Explicit(place)
                    ==> place.point < self.points@.len()),
    {
        let length: usize = self.points.len();
        let mut all: Vec<PathPoint> = Vec::new();
        let mut index: usize = 0;
        while index < length
            invariant
                index <= length,
                length == self.points@.len(),
                all@ == expanded_upto(self.points@, contour, index as nat),
                index == 0 ==> all@.len() == 0,
                forall|i: int|
                    0 <= i < all@.len() ==> ((#[trigger] all@[i]) matches PathPoint::Explicit(
                        place,
                    ) ==> place.point < self.points@.len()),
            decreases length - index,
        {
            let next: usize = if index + 1 < length {
                index + 1
            } else {
                0
            };
            all.push(PathPoint::Explicit(PointRef { contour, point: index }));
            if !self.points[index].on_curve && !self.points[next].on_curve {
                all.push(
                    PathPoint::Midpoint(
                        PointRef { contour, point: index },
                        PointRef { contour, point: next },
                    ),
                );
            }
            index = index + 1;
        }
        all
    }

    fn lies_on_curve(&self, point: PathPoint) -> (r: bool)
        requires
            point matches PathPoint::Explicit(place) ==> place.point < self.points@.len(),
        ensures
            r == on_curve(self.points@, point),
    {
        match point {
            PathPoint::Explicit(place) => self.points[place.point].on_curve,
            PathPoint::Midpoint(_, _) => true,
        }
    }

    /// Converts this closed contour, as the contour with the given number, into
    /// renderer-independent path commands.
    pub fn path_commands_at(&self, contour: usize) -> (r: Vec<PathCommand>)
        ensures
            r@ == path_of(self.points@, contour),
    {
        let all = self.expand(contour);
        let length: usize = all.len();
        let mut start: usize = 0;
        while start < length && !self.lies_on_curve(all[start])
            invariant
                start <= length,
                length == all@.len(),
                forall|i: int|
                    0 <= i < all@.len() ==> ((#[trigger] all@[i]) matches PathPoint::Explicit(
                        place,
                    ) ==> place.point < self.points@.len()),
                first_on_curve(self.points@, all@, 0) == first_on_curve(
                    self.points@,
                    all@,
                    start as int,
                ),
            decreases length - start,
        {
            start = start + 1;
        }
        let mut commands: Vec<PathCommand> = Vec::new();
        if start >= length {
            return commands;
        }
        commands.push(PathCommand::MoveTo(all[start]));
        let mut control: Option<PathPoint> = None;
        let mut step: usize = 0;
        assert(commands@ =~= path_upto(self.points@, all@, start as int, 0).0);
        // The start point comes once more, to emit the segment that closes the contour.
        while step < length
            invariant
                step <= length,
                length == all@.len(),
                start < length,
                forall|i: int|
                    0 <= i < all@.len() ==> ((#[trigger] all@[i]) matches PathPoint::Explicit(
                        place,
                    ) ==> place.point < self.points@.len()),
                (commands@, control) == path_upto(
                    self.points@,
                    all@,
                    start as int,
                    step as nat,
                ),
            decreases length - step,
        {
            step = step + 1;
            let place: usize = if step < length - start {
                start + step
            } else {
                step - (length - start)
            };
            let point = all[place];
            if self.lies_on_curve(point) {
                match control {
                    Some(control) => commands.push(PathCommand::QuadTo { control, end: point }),
                    None => commands.push(PathCommand::LineTo(point)),
                }
                control = None;
            } else {
                control = Some(point);
            }
        }
        commands
    }

    /// Converts this closed contour into renderer-independent path commands.
    ///
    /// TrueType permits two consecutive off-curve points. In that case this
    /// method inserts their midpoint as an implied on-curve point and emits two
    /// quadratic segments. The returned command sequence includes the final
    /// segment back to its initial [`PathCommand::MoveTo`] position. A contour on
    /// its own has the number zero.
    pub fn path_commands(&self) -> (r: Vec<PathCommand>)
        ensures
            r@ == path_of(self.points@, 0),
    {
        self.path_commands_at(0)
    }
}

impl Glyph {
    /// Converts every contour to path commands, preserving contour order.
    ///
    /// Every contour contributes its own [`PathCommand::MoveTo`], so consumers
    /// can distinguish independent outer shapes and holes in the flat result.
    pub fn path_commands(&self) -> (r: Vec<PathCommand>)
        ensures
            r@ == paths_upto(self.model().contours, self.contours@.len()),
    {
        let ghost all = glyph::contour_points(self.contours@);
        let mut commands: Vec<PathCommand> = Vec::new();
        let mut index: usize = 0;
        while index < self.contours.len()
            invariant
                index <= self.contours@.len(),
                all == glyph::contour_points(self.contours@),
                commands@ == paths_upto(all, index as nat),
            decreases self.contours@.len() - index,
        {
            let mut path = self.contours[index].path_commands_at(index);
            commands.append(&mut path);
            index = index + 1;
        }
        commands
    }
}

// ---------------------------------------------------------------------------
// Laws
// ---------------------------------------------------------------------------

/// The control points of the quadratic commands, in order.
pub open spec fn controls(commands: Seq<PathCommand>) -> Seq<PathPoint>
    decreases commands.len(),
{
    if commands.len() == 0 {
        Seq::empty()
    } else {
        match commands.last() {
            PathCommand::QuadTo { control, .. } => controls(commands.drop_last()).push(control),
            _ => controls(commands.drop_last()),
        }
    }
}

/// The places of the walk that lie on the curve, or off it, in order.
pub open spec fn walk(
    points: Seq<GlyphPoint>,
    all: Seq<PathPoint>,
    start: int,
    steps: nat,
    on: bool,
) -> Seq<PathPoint>
    decreases steps,
{
    if steps == 0 {
        Seq::empty()
    } else {
        let before = walk(points, all, start, (steps - 1) as nat, on);
        let point = all[around(all.len() as int, start, steps as int)];
        if on_curve(points, point) == on {
            before.push(point)
        } else {
            before
        }
    }
}

/// Every control point on the closed walk is followed by a point on the curve.
pub open spec fn controls_apart(points: Seq<GlyphPoint>, all: Seq<PathPoint>) -> bool {
    forall|i: int|
        #![trigger all[i]]
        0 <= i < all.len() && !on_curve(points, all[i]) ==> on_curve(
            points,
            all[around(all.len() as int, i, 1)],
        )
}

proof fn expanded_apart(points: Seq<GlyphPoint>, contour: usize, count: nat)
    requires
        0 < count <= points.len() <= usize::MAX,
    ensures
        ({
            let all = expanded_upto(points, contour, count);
            let next = around(points.len() as int, count - 1, 1);
            &&& all.len() >= count
            &&& all[0] == explicit(contour, 0)
            &&& forall|i: int|
                #![trigger all[i]]
                0 <= i < all.len() - 1 && !on_curve(points, all[i]) ==> on_curve(
                    points,
                    all[i + 1],
                )
            &&& !on_curve(points, all.last()) ==> points[next].on_curve
        }),
    decreases count,
{
    reveal_with_fuel(expanded_upto, 2);
    if count > 1 {
        expanded_apart(points, contour, (count - 1) as nat);
        let before = expanded_upto(points, contour, (count - 1) as nat);
        let all = expanded_upto(points, contour, count);
        assert forall|i: int|
            #![trigger all[i]]
            0 <= i < all.len() - 1 && !on_curve(points, all[i]) implies on_curve(
            points,
            all[i + 1],
        ) by {
            if i < before.len() - 1 {
                assert(all[i] == before[i]);
                assert(all[i + 1] == before[i + 1]);
            } else if i == before.len() - 1 {
                assert(all[i] == before.last());
            }
        }
    }
}

/// After implied points are inserted, no two control points are neighbours on the
/// closed contour.
pub proof fn implied_points_separate_controls(points: Seq<GlyphPoint>, contour: usize)
    requires
        points.len() <= usize::MAX,
    ensures
        controls_apart(points, expanded(points, contour)),
{
    if points.len() > 0 {
        let all = expanded(points, contour);
        expanded_apart(points, contour, points.len());
        assert forall|i: int|
            #![trigger all[i]]
            0 <= i < all.len() && !on_curve(points, all[i]) implies on_curve(
            points,
            all[around(all.len() as int, i, 1)],
        ) by {
            if i == all.len() - 1 {
                assert(all[0] == explicit(contour, 0));
            } else {
                assert(on_curve(points, all[i + 1]));
            }
        }
    }
}

proof fn some_point_on_curve(points: Seq<GlyphPoint>, contour: usize)
    requires
        0 < points.len() <= usize::MAX,
    ensures
        ({
            let all = expanded(points, contour);
            let start = first_on_curve(points, all, 0);
            0 <= start < all.len() && on_curve(points, all[start])
        }),
{
    let all = expanded(points, contour);
    expanded_apart(points, contour, points.len());
    implied_points_separate_controls(points, contour);
    if on_curve(points, all[0]) {
        first_on_curve_found(points, all, 0, 0);
    } else {
        first_on_curve_found(points, all, 0, around(all.len() as int, 0, 1));
    }
}

proof fn first_on_curve_found(
    points: Seq<GlyphPoint>,
    all: Seq<PathPoint>,
    from: int,
    witness: int,
)
    requires
        0 <= from <= witness < all.len(),
        on_curve(points, all[witness]),
    ensures
        from <= first_on_curve(points, all, from) <= witness,
        on_curve(points, all[first_on_curve(points, all, from)]),
    decreases witness - from,
{
    if !on_curve(points, all[from]) {
        first_on_curve_found(points, all, from + 1, witness);
    }
}

proof fn path_shape(points: Seq<GlyphPoint>, all: Seq<PathPoint>, start: int, steps: nat)
    requires
        0 <= start < all.len(),
        steps <= all.len(),
        controls_apart(points, all),
        on_curve(points, all[start]),
    ensures
        ({
            let (commands, waiting) = path_upto(points, all, start, steps);
            let off = walk(points, all, start, steps, false);
            let on = walk(points, all, start, steps, true);
            &&& commands.len() == 1 + on.len()
            &&& commands[0] == PathCommand::MoveTo(all[start])
            &&& forall|i: int|
                1 <= i < commands.len() ==> !((#[trigger] commands[i]) is MoveTo)
                    && commands[i].end_point() == on[i - 1]
            &&& match waiting {
                None => controls(commands) == off && (steps > 0 ==> on_curve(
                    points,
                    all[around(all.len() as int, start, steps as int)],
                )),
                Some(control) => controls(commands).push(control) == off && control
                    == all[around(all.len() as int, start, steps as int)] && !on_curve(
                    points,
                    control,
                ),
            }
        }),
    decreases steps,
{
    reveal_with_fuel(controls, 2);
    if steps == 0 {
        let (commands, waiting) = path_upto(points, all, start, 0);
        assert(commands.drop_last() =~= Seq::empty());
        assert(controls(commands) =~= Seq::empty());
    } else {
        let before = (steps - 1) as nat;
        path_shape(points, all, start, before);
        let (earlier, waiting) = path_upto(points, all, start, before);
        let (commands, _) = path_upto(points, all, start, steps);
        let previous = around(all.len() as int, start, before as int);
        let place = around(all.len() as int, start, steps as int);
        assert(place == around(all.len() as int, previous, 1));
        if on_curve(points, all[place]) {
            assert(commands.drop_last() =~= earlier);
        } else if waiting is Some {
            assert(all[previous] == waiting->Some_0);
        }
    }
}

/// How many of the first `count` points lie on the curve.
pub open spec fn on_curve_points(points: Seq<GlyphPoint>, count: nat) -> nat
    decreases count,
{
    if count == 0 {
        0
    } else {
        on_curve_points(points, (count - 1) as nat) + if points[count - 1].on_curve {
            1nat
        } else {
            0
        }
    }
}

/// How many of the first `count` points are control points that another control
/// point follows on the closed contour: a midpoint is implied after each.
pub open spec fn implied_points(points: Seq<GlyphPoint>, count: nat) -> nat
    decreases count,
{
    if count == 0 {
        0
    } else {
        let next = around(points.len() as int, count - 1, 1);
        implied_points(points, (count - 1) as nat) + if !points[count - 1].on_curve
            && !points[next].on_curve {
            1nat
        } else {
            0
        }
    }
}

/// How many path points lie on the curve.
spec fn total_on_curve(points: Seq<GlyphPoint>, all: Seq<PathPoint>) -> nat
    decreases all.len(),
{
    if all.len() == 0 {
        0
    } else {
        total_on_curve(points, all.drop_last()) + if on_curve(points, all.last()) {
            1nat
        } else {
            0
        }
    }
}

proof fn expanded_total(points: Seq<GlyphPoint>, contour: usize, count: nat)
    requires
        count <= points.len() <= usize::MAX,
    ensures
        total_on_curve(points, expanded_upto(points, contour, count)) == on_curve_points(
            points,
            count,
        ) + implied_points(points, count),
    decreases count,
{
    reveal_with_fuel(total_on_curve, 3);
    if count > 0 {
        let index = count - 1;
        let before = expanded_upto(points, contour, index as nat);
        let explicit_added = before.push(explicit(contour, index));
        let all = expanded_upto(points, contour, count);
        expanded_total(points, contour, index as nat);
        assert(explicit_added.drop_last() =~= before);
        if all.len() > explicit_added.len() {
            assert(all.drop_last() =~= explicit_added);
        }
    }
}

/// The walk around the contour passes every place once: first those after the start,
/// then those up to it.
proof fn walk_passes_all(points: Seq<GlyphPoint>, all: Seq<PathPoint>, start: int, steps: nat)
    requires
        0 <= start < all.len(),
        steps <= all.len(),
    ensures
        walk(points, all, start, steps, true).len() == (if start + steps < all.len() {
            total_on_curve(points, all.take(start + steps + 1)) - total_on_curve(
                points,
                all.take(start + 1),
            )
        } else {
            total_on_curve(points, all) - total_on_curve(points, all.take(start + 1))
                + total_on_curve(points, all.take(start + steps + 1 - all.len()))
        }),
    decreases steps,
{
    assert(all.take(all.len() as int) =~= all);
    if steps > 0 {
        walk_passes_all(points, all, start, (steps - 1) as nat);
        let place = around(all.len() as int, start, steps as int);
        assert(all.take(place + 1).drop_last() =~= all.take(place));
        assert(all.take(place + 1).last() == all[place]);
        assert(total_on_curve(points, all.take(place + 1)) == total_on_curve(
            points,
            all.take(place),
        ) + if on_curve(points, all[place]) {
            1nat
        } else {
            0
        });
        if place == 0 {
            assert(total_on_curve(points, all.take(0)) == 0);
        }
    }
}

/// The path of a contour starts with the only `MoveTo` and ends where it started.
/// In between its ends are the points on the curve and its controls are the points
/// off it, each once and in order: none is lost. So there is one command for the
/// start, one for every point on the curve and one for every implied midpoint.
pub proof fn paths_are_closed(points: Seq<GlyphPoint>, contour: usize)
    requires
        0 < points.len() <= usize::MAX,
    ensures
        ({
            let all = expanded(points, contour);
            let start = first_on_curve(points, all, 0);
            let commands = path_of(points, contour);
            let on = walk(points, all, start, all.len(), true);
            &&& commands.len() >= 2
            &&& commands.len() == 1 + on_curve_points(points, points.len()) + implied_points(
                points,
                points.len(),
            )
            &&& commands[0] == PathCommand::MoveTo(all[start])
            &&& commands.last().end_point() == all[start]
            &&& forall|i: int|
                1 <= i < commands.len() ==> !((#[trigger] commands[i]) is MoveTo)
                    && commands[i].end_point() == on[i - 1]
            &&& controls(commands) == walk(points, all, start, all.len(), false)
        }),
{
    let all = expanded(points, contour);
    let start = first_on_curve(points, all, 0);
    some_point_on_curve(points, contour);
    implied_points_separate_controls(points, contour);
    path_shape(points, all, start, all.len());
    assert(around(all.len() as int, start, all.len() as int) == start);
    let on = walk(points, all, start, all.len(), true);
    assert(on.last() == all[start]);
    walk_passes_all(points, all, start, all.len());
    expanded_total(points, contour, points.len());
}

/// A contour without points draws nothing.
pub proof fn empty_contours_have_no_path(contour: usize)
    ensures
        path_of(Seq::empty(), contour) == Seq::<PathCommand>::empty(),
{
}

proof fn command_of_step(
    points: Seq<GlyphPoint>,
    all: Seq<PathPoint>,
    start: int,
    step: nat,
    steps: nat,
)
    requires
        0 <= start < all.len(),
        1 <= step <= steps <= all.len(),
        controls_apart(points, all),
        on_curve(points, all[start]),
        on_curve(points, all[around(all.len() as int, start, step as int)]),
    ensures
        ({
            let before = all[around(all.len() as int, start, step - 1)];
            let end = all[around(all.len() as int, start, step as int)];
            let commands = path_upto(points, all, start, steps).0;
            let place = 1 + walk(points, all, start, (step - 1) as nat, true).len() as int;
            &&& place < commands.len()
            &&& commands[place] == if on_curve(points, before) {
                PathCommand::LineTo(end)
            } else {
                PathCommand::QuadTo { control: before, end }
            }
        }),
    decreases steps,
{
    path_shape(points, all, start, (step - 1) as nat);
    if step < steps {
        command_of_step(points, all, start, step, (steps - 1) as nat);
        path_shape(points, all, start, (steps - 1) as nat);
    }
}

/// Every point on the curve is drawn to from the place before it on the walk: by a line if
/// that lies on the curve too, and otherwise by a curve with that place as its control.
pub proof fn curve_points_are_drawn_to(points: Seq<GlyphPoint>, contour: usize, step: nat)
    requires
        0 < points.len() <= usize::MAX,
        1 <= step <= expanded(points, contour).len(),
    ensures
        ({
            let all = expanded(points, contour);
            let start = first_on_curve(points, all, 0);
            let before = all[(start + step - 1) % (all.len() as int)];
            let end = all[(start + step) % (all.len() as int)];
            let commands = path_of(points, contour);
            let place = 1 + walk(points, all, start, (step - 1) as nat, true).len() as int;
            on_curve(points, end) ==> place < commands.len() && commands[place] == if on_curve(
                points,
                before,
            ) {
                PathCommand::LineTo(end)
            } else {
                PathCommand::QuadTo { control: before, end }
            }
        }),
{
    let all = expanded(points, contour);
    let start = first_on_curve(points, all, 0);
    some_point_on_curve(points, contour);
    implied_points_separate_controls(points, contour);
    walks_go_round(points, contour, step as int);
    walks_go_round(points, contour, step - 1);
    if on_curve(points, all[around(all.len() as int, start, step as int)]) {
        command_of_step(points, all, start, step, all.len());
    }
}

proof fn expanded_places(points: Seq<GlyphPoint>, contour: usize, count: nat)
    requires
        count <= points.len() <= usize::MAX,
    ensures
        ({
            let all = expanded_upto(points, contour, count);
            &&& all.len() == count + implied_points(points, count)
            &&& forall|i: int|
                0 <= i < count ==> {
                    let place = i + #[trigger] implied_points(points, i as nat);
                    let next = around(points.len() as int, i, 1);
                    &&& 0 <= place < all.len()
                    &&& all[place] == explicit(contour, i)
                    &&& !points[i].on_curve && !points[next].on_curve ==> place + 1 < all.len()
                        && all[place + 1] == PathPoint::Midpoint(
                        PointRef { contour, point: i as usize },
                        PointRef { contour, point: next as usize },
                    )
                }
        }),
    decreases count,
{
    if count > 0 {
        expanded_places(points, contour, (count - 1) as nat);
    }
}

/// The points of a contour stay in their order. Behind a control point that another
/// control point follows on the closed contour, and nowhere else, stands the point halfway
/// between the two.
pub proof fn points_keep_their_order(points: Seq<GlyphPoint>, contour: usize, index: int)
    requires
        0 <= index < points.len() <= usize::MAX,
    ensures
        ({
            let all = expanded(points, contour);
            let place = index + implied_points(points, index as nat);
            let next = (index + 1) % (points.len() as int);
            &&& all.len() == points.len() + implied_points(points, points.len())
            &&& all[place] == PathPoint::Explicit(PointRef { contour, point: index as usize })
            &&& !points[index].on_curve && !points[next].on_curve ==> all[place + 1]
                == PathPoint::Midpoint(
                PointRef { contour, point: index as usize },
                PointRef { contour, point: next as usize },
            )
        }),
{
    expanded_places(points, contour, points.len());
    assert(implied_points(points, index as nat) >= 0);
    if index + 1 == points.len() {
        vstd::arithmetic::div_mod::lemma_mod_self_0(points.len() as int);
    } else {
        vstd::arithmetic::div_mod::lemma_small_mod((index + 1) as nat, points.len());
    }
}

/// The walk starts at the first point on the curve and goes round: behind the last point
/// comes the first.
pub proof fn walks_go_round(points: Seq<GlyphPoint>, contour: usize, step: int)
    requires
        0 < points.len() <= usize::MAX,
        0 <= step <= expanded(points, contour).len(),
    ensures
        ({
            let all = expanded(points, contour);
            let start = first_on_curve(points, all, 0);
            &&& 0 <= start < all.len()
            &&& on_curve(points, all[start])
            &&& forall|i: int| 0 <= i < start ==> !on_curve(points, #[trigger] all[i])
            &&& around(all.len() as int, start, step) == (start + step) % (all.len() as int)
        }),
{
    let all = expanded(points, contour);
    let start = first_on_curve(points, all, 0);
    some_point_on_curve(points, contour);
    none_on_curve_before(points, all, 0);
    if start + step < all.len() {
        vstd::arithmetic::div_mod::lemma_small_mod((start + step) as nat, all.len());
    } else {
        vstd::arithmetic::div_mod::lemma_mod_multiples_vanish(
            1,
            start + step - all.len(),
            all.len() as int,
        );
        vstd::arithmetic::div_mod::lemma_small_mod((start + step - all.len()) as nat, all.len());
    }
}

proof fn none_on_curve_before(points: Seq<GlyphPoint>, all: Seq<PathPoint>, from: int)
    requires
        0 <= from <= all.len(),
    ensures
        forall|i: int|
            from <= i < first_on_curve(points, all, from) ==> !on_curve(points, #[trigger] all[i]),
    decreases all.len() - from,
{
    if from < all.len() && !on_curve(points, all[from]) {
        none_on_curve_before(points, all, from + 1);
    }
}

/// A point lies on the curve if the font says so, and a midpoint always does.
pub proof fn midpoints_lie_on_the_curve(points: Seq<GlyphPoint>, place: PointRef, other: PointRef)
    ensures
        on_curve(points, PathPoint::Midpoint(place, other)),
        on_curve(points, PathPoint::Explicit(place)) == points[place.point as int].on_curve,
{
}

/// The path of a glyph is made of the paths of its contours, each under its own number and
/// in their order.
pub proof fn glyph_paths_are_contour_paths(contours: Seq<Seq<GlyphPoint>>, count: nat)
    requires
        count < contours.len() <= usize::MAX,
    ensures
        paths_upto(contours, 0).len() == 0,
        paths_upto(contours, count + 1).len() == paths_upto(contours, count).len() + path_of(
            contours[count as int],
            count as usize,
        ).len(),
        forall|i: int|
            0 <= i < paths_upto(contours, count).len() ==> #[trigger] paths_upto(
                contours,
                count + 1,
            )[i] == paths_upto(contours, count)[i],
        forall|i: int|
            0 <= i < path_of(contours[count as int], count as usize).len() ==> paths_upto(
                contours,
                count + 1,
            )[paths_upto(contours, count).len() + i] == #[trigger] path_of(
                contours[count as int],
                count as usize,
            )[i],
{
}

} // verus!
