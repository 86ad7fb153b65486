//! The parsed font: lookups, metrics and the glyph loader.

use super::cmap;
use super::cmap::{find_glyph, parse_cmap, CmapModel, CmapSubtable};
use super::component;
use super::component::{
    place_component, ComponentPlacement, GlyphComponent, MORE_COMPONENTS, WE_HAVE_INSTRUCTIONS,
};
use super::error::{FontError, RequiredTable};
use super::glyph;
use super::glyph::{parse_simple_glyph, read_bounds, Contour, Glyph, GlyphModel};
use super::reader;
use super::reader::{invalid_data, read_i16, require, GlyphReader};
use super::tables;
use super::tables::{
    parse_head, parse_hhea, parse_hmtx, parse_loca, parse_maxp, parse_table_directory, table_data,
    table_record, validate_loca, HeadData, HheaTable, HorizontalMetrics, MaxpTable, TableRecord,
};
use std::collections::HashMap;
use std::ops::Range;
use vstd::prelude::*;

verus! {

// Limits of the loader, not of the font format. They bound both recursion and
// total expansion: a shallow component graph can still expand exponentially when
// it references the same child more than once.
pub const MAX_GLYPH_LOAD_DEPTH: usize = 32;

pub const MAX_GLYPH_LOAD_VISITS: usize = 4096;

pub const MAX_GLYPH_LOAD_POINTS: usize = 0x10_0000;

/// A parsed font as a value.
pub struct FontModel {
    pub data: Seq<u8>,
    pub tables: Map<u32, TableRecord>,
    pub head: HeadData,
    pub maxp: MaxpTable,
    pub hhea: HheaTable,
    pub cmaps: Seq<CmapModel>,
    pub glyph_offsets: Seq<u32>,
    pub metrics: Seq<HorizontalMetrics>,
}

impl FontModel {
    /// The record of the outline table.
    pub open spec fn glyf(self) -> TableRecord {
        self.tables[RequiredTable::Glyf.spec_tag()]
    }

    /// What every accepted font keeps to: there is at least one glyph, every glyph
    /// has metrics, and all glyph data lies inside the file.
    pub open spec fn valid(self) -> bool {
        &&& self.maxp.num_glyphs > 0
        &&& self.tables.contains_key(RequiredTable::Glyf.spec_tag())
        &&& self.glyf().fits(self.data.len())
        &&& self.glyph_offsets.len() == self.maxp.num_glyphs + 1
        &&& tables::loca_ordered(self.glyph_offsets)
        &&& self.glyph_offsets.last() <= self.glyf().length
        &&& self.metrics.len() == self.maxp.num_glyphs
        &&& 0 < self.hhea.number_of_h_metrics <= self.maxp.num_glyphs
    }

    /// The glyph of a code point; zero where there is none.
    pub open spec fn glyph_index(self, codepoint: u32) -> u16 {
        if codepoint > 0x10_ffff {
            0
        } else {
            match cmap::first_lookup(self.cmaps, codepoint) {
                Some(glyph_id) => if glyph_id < self.maxp.num_glyphs {
                    glyph_id
                } else {
                    0
                },
                None => 0,
            }
        }
    }

    /// Where the bytes of a glyph start and end in the file.
    pub open spec fn glyph_range(self, glyph_id: u16) -> Option<(int, int)> {
        if glyph_id < self.maxp.num_glyphs {
            Some(
                (
                    self.glyf().offset + self.glyph_offsets[glyph_id as int],
                    self.glyf().offset + self.glyph_offsets[glyph_id + 1],
                ),
            )
        } else {
            None
        }
    }

    /// The metrics of a glyph.
    pub open spec fn metrics_of(self, glyph_id: u16) -> Option<HorizontalMetrics> {
        if glyph_id < self.metrics.len() {
            Some(self.metrics[glyph_id as int])
        } else {
            None
        }
    }
}

/// The font in a file. The tables are judged in this order, and the first that
/// is missing or wrong decides the error.
pub open spec fn spec_font(data: Seq<u8>) -> Result<FontModel, FontError> {
    match tables::spec_table_directory(data) {
        Err(error) => Err(error),
        Ok(directory) => spec_font_headers(data, directory),
    }
}

/// The font, once its directory is known.
pub open spec fn spec_font_headers(data: Seq<u8>, directory: Map<u32, TableRecord>) -> Result<
    FontModel,
    FontError,
> {
    match tables::spec_table_data(data, directory, RequiredTable::Head) {
        Err(error) => Err(error),
        Ok(bytes) => match tables::spec_head(bytes) {
            Err(error) => Err(error),
            Ok(head) => match tables::spec_table_data(data, directory, RequiredTable::Maxp) {
                Err(error) => Err(error),
                Ok(bytes) => match tables::spec_maxp(bytes) {
                    Err(error) => Err(error),
                    Ok(maxp) => match tables::spec_table_data(
                        data,
                        directory,
                        RequiredTable::Hhea,
                    ) {
                        Err(error) => Err(error),
                        Ok(bytes) => match tables::spec_hhea(bytes) {
                            Err(error) => Err(error),
                            Ok(hhea) => spec_font_contents(data, directory, head, maxp, hhea),
                        },
                    },
                },
            },
        },
    }
}

/// The font, once its headers are known.
pub open spec fn spec_font_contents(
    data: Seq<u8>,
    directory: Map<u32, TableRecord>,
    head: HeadData,
    maxp: MaxpTable,
    hhea: HheaTable,
) -> Result<FontModel, FontError> {
    match tables::spec_table_data(data, directory, RequiredTable::Cmap) {
        Err(error) => Err(error),
        Ok(bytes) => match cmap::spec_cmap(bytes) {
            Err(error) => Err(error),
            Ok(cmaps) => match spec_font_offsets(data, directory, head, maxp) {
                Err(error) => Err(error),
                Ok(glyph_offsets) => match tables::spec_table_data(
                    data,
                    directory,
                    RequiredTable::Hmtx,
                ) {
                    Err(error) => Err(error),
                    Ok(bytes) => match tables::spec_hmtx(
                        bytes,
                        maxp.num_glyphs,
                        hhea.number_of_h_metrics,
                    ) {
                        Err(error) => Err(error),
                        Ok(metrics) => Ok(
                            FontModel {
                                data,
                                tables: directory,
                                head,
                                maxp,
                                hhea,
                                cmaps,
                                glyph_offsets,
                                metrics,
                            },
                        ),
                    },
                },
            },
        },
    }
}

/// The glyph locations, which must lie inside the outline table.
pub open spec fn spec_font_offsets(
    data: Seq<u8>,
    directory: Map<u32, TableRecord>,
    head: HeadData,
    maxp: MaxpTable,
) -> Result<Seq<u32>, FontError> {
    match tables::spec_table_data(data, directory, RequiredTable::Loca) {
        Err(error) => Err(error),
        Ok(bytes) => match tables::spec_loca(bytes, head.index_to_loc_format, maxp.num_glyphs) {
            Err(error) => Err(error),
            Ok(offsets) => match tables::spec_table_record(directory, RequiredTable::Glyf) {
                Err(error) => Err(error),
                Ok(glyf) => match tables::spec_validate_loca(offsets, glyf.length as int) {
                    Err(error) => Err(error),
                    Ok(_) => Ok(offsets),
                },
            },
        },
    }
}

// ---------------------------------------------------------------------------
// Loading glyphs
// ---------------------------------------------------------------------------

/// What a glyph may still cost before its expansion is given up.
#[derive(Debug, Clone, Copy, PartialEq, Eq, Structural)]
pub struct GlyphLoadBudget {
    /// Glyphs that may still be visited.
    pub visits: usize,
    /// Points that may still be produced.
    pub points: usize,
}

/// What loading a glyph yields, and what is left of the budget. `active` holds
/// the composite glyphs that are being expanded.
pub open spec fn spec_load(
    font: FontModel,
    glyph_id: u16,
    active: Seq<u16>,
    budget: GlyphLoadBudget,
) -> (Result<Option<GlyphModel>, FontError>, GlyphLoadBudget)
    decreases MAX_GLYPH_LOAD_DEPTH - active.len(), 0int,
{
    if active.len() >= MAX_GLYPH_LOAD_DEPTH {
        (Err(FontError::InvalidData("composite glyph nesting exceeds loader limit")), budget)
    } else if active.contains(glyph_id) {
        (Err(FontError::InvalidData("cyclic composite glyph reference")), budget)
    } else if budget.visits == 0 {
        (Err(FontError::InvalidData("glyph expansion exceeds visit limit")), budget)
    } else {
        let left = GlyphLoadBudget {
            visits: (budget.visits - 1) as usize,
            points: budget.points,
        };
        match font.glyph_range(glyph_id) {
            None => (Err(FontError::InvalidData("glyph ID is outside maxp.numGlyphs")), left),
            Some((start, end)) => if start >= end {
                (Ok(None), left)
            } else {
                let data = font.data.subrange(start, end);
                match reader::spec_require(data, 0, 10, "glyf header") {
                    Err(error) => (Err(error), left),
                    Ok(_) => if reader::i16_at(data, 0) >= 0 {
                        charge_points(glyph::spec_simple_glyph(data), left)
                    } else {
                        let (loaded, rest) = spec_load_components(
                            font,
                            data,
                            10,
                            GlyphModel {
                                bounds: glyph::bounds_at(data),
                                contours: Seq::empty(),
                                steps: Seq::empty(),
                            },
                            false,
                            active.push(glyph_id),
                            left,
                        );
                        (
                            match loaded {
                                Err(error) => Err(error),
                                Ok(glyph) => Ok(Some(glyph)),
                            },
                            rest,
                        )
                    },
                }
            },
        }
    }
}

/// Takes the points of a simple glyph off the budget.
pub open spec fn charge_points(
    loaded: Result<GlyphModel, FontError>,
    budget: GlyphLoadBudget,
) -> (Result<Option<GlyphModel>, FontError>, GlyphLoadBudget) {
    match loaded {
        Err(error) => (Err(error), budget),
        Ok(glyph) => {
            let count = glyph::point_total(glyph.contours);
            if count > budget.points {
                (Err(FontError::InvalidData("glyph expansion exceeds point limit")), budget)
            } else {
                (
                    Ok(Some(glyph)),
                    GlyphLoadBudget {
                        visits: budget.visits,
                        points: (budget.points - count) as usize,
                    },
                )
            }
        },
    }
}

/// What loading the records from `cursor` on adds to the components placed before.
/// Instructions follow the last record if any record announces them.
pub open spec fn spec_load_components(
    font: FontModel,
    data: Seq<u8>,
    cursor: int,
    placed: GlyphModel,
    instructions: bool,
    active: Seq<u16>,
    budget: GlyphLoadBudget,
) -> (Result<GlyphModel, FontError>, GlyphLoadBudget)
    decreases MAX_GLYPH_LOAD_DEPTH - active.len(), data.len() - cursor,
{
    match component::component_at(data, cursor) {
        Err(error) => (Err(error), budget),
        Ok((component, next)) => {
            if cursor == 10 && component.placement is Points {
                (
                    Err(FontError::InvalidData("first composite component must use XY offsets")),
                    budget,
                )
            } else {
                let (child, left) = spec_load(font, component.glyph_id, active, budget);
                match child {
                    Err(error) => (Err(error), left),
                    Ok(child) => match component::with_component(placed, child, component) {
                        Err(error) => (Err(error), left),
                        Ok(glyph) => {
                            let announced = instructions || component.flags & WE_HAVE_INSTRUCTIONS
                                != 0;
                            if component.flags & MORE_COMPONENTS != 0 {
                                spec_load_components(
                                    font,
                                    data,
                                    next,
                                    glyph,
                                    announced,
                                    active,
                                    left,
                                )
                            } else {
                                (check_instructions(data, next, glyph, announced), left)
                            }
                        },
                    },
                }
            }
        },
    }
}

/// The glyph, if its instructions, where it has any, lie inside its data.
pub open spec fn check_instructions(
    data: Seq<u8>,
    cursor: int,
    glyph: GlyphModel,
    announced: bool,
) -> Result<GlyphModel, FontError> {
    if !announced {
        Ok(glyph)
    } else {
        match reader::spec_read_u16(data, cursor) {
            Err(error) => Err(error),
            Ok(length) => match reader::spec_require(
                data,
                cursor + 2,
                length as int,
                "composite glyph instructions",
            ) {
                Err(error) => Err(error),
                Ok(_) => Ok(glyph),
            },
        }
    }
}

/// The budget that a glyph starts with.
pub open spec fn full_budget() -> GlyphLoadBudget {
    GlyphLoadBudget { visits: MAX_GLYPH_LOAD_VISITS, points: MAX_GLYPH_LOAD_POINTS }
}

/// Whether `glyph_id` is being expanded.
fn is_active(active: &Vec<u16>, glyph_id: u16) -> (r: bool)
    ensures
        r == active@.contains(glyph_id),
{
    let mut index: usize = 0;
    while index < active.len()
        invariant
            index <= active@.len(),
            forall|i: int| 0 <= i < index ==> active@[i] != glyph_id,
        decreases active@.len() - index,
    {
        if active[index] == glyph_id {
            return true;
        }
        index = index + 1;
    }
    false
}

/// Adds up the points of all contours.
fn count_points(contours: &Vec<Contour>) -> (r: usize)
    requires
        glyph::point_total(glyph::contour_points(contours@)) <= usize::MAX,
    ensures
        r == glyph::point_total(glyph::contour_points(contours@)),
{
    let ghost all = glyph::contour_points(contours@);
    let mut count: usize = 0;
    let mut index: usize = 0;
    while index < contours.len()
        invariant
            index <= contours@.len(),
            all == glyph::contour_points(contours@),
            glyph::point_total(all) <= usize::MAX,
            count == glyph::point_total(all.take(index as int)),
        decreases contours@.len() - index,
    {
        proof {
            glyph::point_total_grows(all, index as int + 1);
            assert(all.take(index + 1).drop_last() =~= all.take(index as int));
            assert(all.take(index + 1).last() == contours@[index as int].points@);
        }
        count = count + contours[index].points.len();
        index = index + 1;
    }
    assert(all.take(index as int) =~= all);
    count
}

/// Parsed TrueType font data required for basic outline rendering and layout.
///
/// Construction eagerly validates table bounds and decodes character maps,
/// glyph locations, and horizontal metrics. Glyph outlines themselves are
/// decoded lazily by [`TTFParser::load_glyph`].
pub struct TTFParser {
    font_data: Vec<u8>,
    font_tables: HashMap<u32, TableRecord>,
    head_data: HeadData,
    maxp_table: MaxpTable,
    hhea_table: HheaTable,
    cmaps: Vec<CmapSubtable>,
    glyph_offsets: Vec<u32>,
    horizontal_metrics: Vec<HorizontalMetrics>,
}

impl View for TTFParser {
    type V = FontModel;

    closed spec fn view(&self) -> FontModel {
        FontModel {
            data: self.font_data@,
            tables: self.font_tables@,
            head: self.head_data,
            maxp: self.maxp_table,
            hhea: self.hhea_table,
            cmaps: cmap::models(self.cmaps@),
            glyph_offsets: self.glyph_offsets@,
            metrics: self.horizontal_metrics@,
        }
    }
}

impl TTFParser {
    #[verifier::type_invariant]
    spec fn inv(self) -> bool {
        self@.valid()
    }

    /// Parses an owned TrueType font buffer.
    ///
    /// Keeping ownership of the buffer allows [`TTFParser::load_glyph`] to
    /// decode outlines on demand without lifetime parameters or another copy.
    pub fn from_bytes(font_data: Vec<u8>) -> (r: Result<TTFParser, FontError>)
        ensures
            match (r, spec_font(font_data@)) {
                (Ok(font), Ok(expected)) => font@ == expected && font@.valid(),
                (Err(error), Err(expected)) => error == expected,
                _ => false,
            },
    {
        let bytes = font_data.as_slice();
        let font_tables = parse_table_directory(bytes)?;
        let head_data = parse_head(table_data(bytes, &font_tables, RequiredTable::Head)?)?;
        let maxp_table = parse_maxp(table_data(bytes, &font_tables, RequiredTable::Maxp)?)?;
        let hhea_table = parse_hhea(table_data(bytes, &font_tables, RequiredTable::Hhea)?)?;
        let cmaps = parse_cmap(table_data(bytes, &font_tables, RequiredTable::Cmap)?)?;
        let glyph_offsets = parse_loca(
            table_data(bytes, &font_tables, RequiredTable::Loca)?,
            head_data.index_to_loc_format,
            maxp_table.num_glyphs,
        )?;
        let glyf_length = table_record(&font_tables, RequiredTable::Glyf)?.length;
        validate_loca(glyph_offsets.as_slice(), glyf_length)?;
        let horizontal_metrics = parse_hmtx(
            table_data(bytes, &font_tables, RequiredTable::Hmtx)?,
            maxp_table.num_glyphs,
            hhea_table.number_of_h_metrics,
        )?;
        Ok(
            TTFParser {
                font_data,
                font_tables,
                head_data,
                maxp_table,
                hhea_table,
                cmaps,
                glyph_offsets,
                horizontal_metrics,
            },
        )
    }

    /// Does nothing: a font is completely parsed once it exists.
    pub fn parse_information(&mut self) -> (r: &mut Self)
        ensures
            *r == *old(self),
            *final(self) == *final(r),
    {
        self
    }

    /// Returns the parsed values required from the `head` table.
    pub fn head(&self) -> (r: HeadData)
        ensures
            r == self@.head,
    {
        self.head_data
    }

    /// Returns the basic `maxp` table metadata.
    pub fn maxp(&self) -> (r: MaxpTable)
        ensures
            r == self@.maxp,
    {
        self.maxp_table
    }

    /// Returns horizontal-header metrics from `hhea`.
    pub fn hhea(&self) -> (r: HheaTable)
        ensures
            r == self@.hhea,
    {
        self.hhea_table
    }

    /// Returns the number of font units per em from `head`. Outlines are scaled
    /// by the pixel height over this number.
    pub fn units_per_em(&self) -> (r: u16)
        ensures
            r == self@.head.units_per_em,
    {
        self.head_data.units_per_em
    }

    /// Returns the total number of glyphs declared by `maxp`.
    pub fn num_glyphs(&self) -> (r: u16)
        ensures
            r == self@.maxp.num_glyphs,
            r > 0,
    {
        proof {
            use_type_invariant(self);
        }
        self.maxp_table.num_glyphs
    }

    /// Maps a Unicode code point to a glyph ID using `cmap`.
    ///
    /// Format 12 maps are preferred over format 4 maps when both are present.
    /// Returns glyph zero (`.notdef`) when the code point is invalid, unmapped,
    /// or maps outside the font's declared glyph count.
    pub fn glyph_index(&self, codepoint: u32) -> (r: u16)
        ensures
            r == self@.glyph_index(codepoint),
            r < self@.maxp.num_glyphs,
    {
        proof {
            use_type_invariant(self);
        }
        if codepoint > 0x10_ffff {
            return 0;
        }
        match find_glyph(&self.cmaps, codepoint) {
            Some(glyph_id) => if glyph_id < self.maxp_table.num_glyphs {
                glyph_id
            } else {
                0
            },
            None => 0,
        }
    }

    /// Returns the glyph's absolute byte range within the font data.
    ///
    /// Adjacent equal `loca` offsets produce an empty range, which represents a
    /// glyph without outline data, commonly a space. Returns `None` only when
    /// `glyph_id` is outside `0..num_glyphs()`.
    pub fn glyph_range(&self, glyph_id: u16) -> (r: Option<Range<usize>>)
        ensures
            match (r, self@.glyph_range(glyph_id)) {
                (Some(range), Some((start, end))) => range.start == start && range.end == end
                    && start <= end <= self@.data.len(),
                (None, None) => true,
                _ => false,
            },
    {
        broadcast use vstd::std_specs::hash::group_hash_axioms;

        proof {
            use_type_invariant(self);
        }
        let index: usize = glyph_id as usize;
        if index >= self.maxp_table.num_glyphs as usize {
            return None;
        }
        let glyf = self.font_tables.get(&RequiredTable::Glyf.tag())?;
        assert(*glyf == self@.glyf());
        assert(self.font_data@.len() == self.font_data.len());
        assert(self.glyph_offsets@[index as int] <= self.glyph_offsets@.last());
        assert(self.glyph_offsets@[index + 1] <= self.glyph_offsets@.last());
        let start = glyf.offset.checked_add(self.glyph_offsets[index] as usize)?;
        let end = glyf.offset.checked_add(self.glyph_offsets[index + 1] as usize)?;
        Some(Range { start, end })
    }

    /// Decodes a simple or composite TrueType glyph from `glyf`.
    ///
    /// Composite children are recursively decoded and appended in font order;
    /// the steps of the result transform and move them. Explicit point indices
    /// are resolved before path conversion inserts implied points. Results remain
    /// unhinted, in font units.
    ///
    /// `ROUND_XY_TO_GRID` is intentionally ignored: pixel-grid rounding requires
    /// a device scale and belongs to a hinted loader. Instruction bytes are
    /// bounds-checked but not executed. `USE_MY_METRICS` does not change this
    /// geometry-only result or the raw values returned by `horizontal_metrics`.
    ///
    /// Returns `Ok(None)` when `loca` declares an empty range. A non-empty
    /// zero-contour glyph is represented by `Some(Glyph)` with no contours.
    pub fn load_glyph(&self, glyph_id: u16) -> (r: Result<Option<Glyph>, FontError>)
        ensures
            match (r, spec_load(self@, glyph_id, Seq::empty(), full_budget()).0) {
                (Ok(loaded), Ok(expected)) => glyph::optional_model(loaded) == expected,
                (Err(error), Err(expected)) => error == expected,
                _ => false,
            },
            r matches Ok(Some(glyph)) ==> component::steps_within(
                glyph.model().steps,
                glyph.model().contours,
            ),
    {
        let mut active: Vec<u16> = Vec::with_capacity(MAX_GLYPH_LOAD_DEPTH);
        let mut budget = GlyphLoadBudget {
            visits: MAX_GLYPH_LOAD_VISITS,
            points: MAX_GLYPH_LOAD_POINTS,
        };
        assert(active@ =~= Seq::empty());
        self.load_glyph_inner(glyph_id, &mut active, &mut budget)
    }

    /// Decodes a glyph inside the expansion of the composite glyphs `active`,
    /// at the expense of `budget`.
    pub fn load_glyph_inner(
        &self,
        glyph_id: u16,
        active: &mut Vec<u16>,
        budget: &mut GlyphLoadBudget,
    ) -> (r: Result<Option<Glyph>, FontError>)
        ensures
            match (r, spec_load(self@, glyph_id, old(active)@, *old(budget)).0) {
                (Ok(loaded), Ok(expected)) => glyph::optional_model(loaded) == expected,
                (Err(error), Err(expected)) => error == expected,
                _ => false,
            },
            r matches Ok(Some(glyph)) ==> component::steps_within(
                glyph.model().steps,
                glyph.model().contours,
            ),
            *final(budget) == spec_load(self@, glyph_id, old(active)@, *old(budget)).1,
            final(active)@ == old(active)@,
        decreases MAX_GLYPH_LOAD_DEPTH - old(active)@.len(), 0int,
    {
        proof {
            use_type_invariant(self);
        }
        if active.len() >= MAX_GLYPH_LOAD_DEPTH {
            return Err(invalid_data("composite glyph nesting exceeds loader limit"));
        }
        if is_active(active, glyph_id) {
            return Err(invalid_data("cyclic composite glyph reference"));
        }
        if budget.visits == 0 {
            return Err(invalid_data("glyph expansion exceeds visit limit"));
        }
        budget.visits = budget.visits - 1;
        let range = match self.glyph_range(glyph_id) {
            Some(range) => range,
            None => return Err(invalid_data("glyph ID is outside maxp.numGlyphs")),
        };
        if range.start >= range.end {
            return Ok(None);
        }
        let data = vstd::slice::slice_subrange(
            self.font_data.as_slice(),
            range.start,
            range.end,
        );
        require(data, 0, 10, "glyf header")?;
        if read_i16(data, 0)? >= 0 {
            let glyph = parse_simple_glyph(data)?;
            proof {
                glyph::simple_glyph_bounded(data@, glyph.model());
            }
            let count = count_points(&glyph.contours);
            if count > budget.points {
                return Err(invalid_data("glyph expansion exceeds point limit"));
            }
            budget.points = budget.points - count;
            return Ok(Some(glyph));
        }
        active.push(glyph_id);
        let result = self.load_composite_glyph(data, active, budget);
        let _ = active.pop();
        assert(active@ =~= old(active)@);
        match result {
            Ok(glyph) => Ok(Some(glyph)),
            Err(error) => Err(error),
        }
    }

    fn load_composite_glyph(
        &self,
        data: &[u8],
        active: &mut Vec<u16>,
        budget: &mut GlyphLoadBudget,
    ) -> (r: Result<Glyph, FontError>)
        requires
            data@.len() >= 10,
            old(active)@.len() <= MAX_GLYPH_LOAD_DEPTH,
        ensures
            ({
                let start = GlyphModel {
                    bounds: glyph::bounds_at(data@),
                    contours: Seq::empty(),
                    steps: Seq::empty(),
                };
                let (expected, left) = spec_load_components(
                    self@,
                    data@,
                    10,
                    start,
                    false,
                    old(active)@,
                    *old(budget),
                );
                &&& match (r, expected) {
                    (Ok(glyph), Ok(model)) => glyph.model() == model && component::steps_within(
                        model.steps,
                        model.contours,
                    ),
                    (Err(error), Err(other)) => error == other,
                    _ => false,
                }
                &&& *final(budget) == left
            }),
            final(active)@ == old(active)@,
        decreases MAX_GLYPH_LOAD_DEPTH - old(active)@.len(), 1int,
    {
        let mut glyph = Glyph {
            bounds: read_bounds(data)?,
            contours: Vec::new(),
            steps: Vec::new(),
        };
        let ghost start = GlyphModel {
            bounds: glyph::bounds_at(data@),
            contours: Seq::empty(),
            steps: Seq::empty(),
        };
        assert(glyph.model() =~= start);
        let ghost goal = spec_load_components(
            self@,
            data@,
            10,
            start,
            false,
            active@,
            *budget,
        );
        let mut reader = GlyphReader { data, cursor: 10 };
        let mut has_instructions = false;
        let mut first_component = true;
        loop
            invariant_except_break
                goal == spec_load_components(
                    self@,
                    data@,
                    reader.cursor as int,
                    glyph.model(),
                    has_instructions,
                    active@,
                    *budget,
                ),
            invariant
                reader.data == data,
                active@ == old(active)@,
                old(active)@.len() <= MAX_GLYPH_LOAD_DEPTH,
                first_component == (reader.cursor == 10),
                10 <= reader.cursor <= data@.len(),
                component::steps_within(glyph.model().steps, glyph.model().contours),
                goal == spec_load_components(
                    self@,
                    data@,
                    10,
                    start,
                    false,
                    old(active)@,
                    *old(budget),
                ),
                start == (GlyphModel {
                    bounds: glyph::bounds_at(data@),
                    contours: Seq::empty(),
                    steps: Seq::empty(),
                }),
            ensures
                goal == (
                    check_instructions(
                        data@,
                        reader.cursor as int,
                        glyph.model(),
                        has_instructions,
                    ),
                    *budget,
                ),
            decreases data@.len() - reader.cursor,
        {
            proof {
                component::component_advances(data@, reader.cursor as int);
            }
            let component = GlyphComponent::read(&mut reader)?;
            has_instructions = has_instructions || component.flags & WE_HAVE_INSTRUCTIONS != 0;
            if let ComponentPlacement::Points(_, _) = component.placement {
                if first_component {
                    return Err(invalid_data("first composite component must use XY offsets"));
                }
            }
            first_component = false;
            let child = self.load_glyph_inner(component.glyph_id, active, budget)?;
            place_component(&mut glyph, child, component)?;
            if component.flags & MORE_COMPONENTS == 0 {
                break;
            }
        }
        if has_instructions {
            let length: usize = reader.u16()? as usize;
            require(data, reader.cursor, length, "composite glyph instructions")?;
        }
        Ok(glyph)
    }

    /// Returns horizontal metrics for a glyph ID.
    ///
    /// The `hmtx` rule that trailing glyphs reuse the last full advance width
    /// is already applied. Returns `None` for an out-of-range glyph ID.
    /// These are raw table values; composite `USE_MY_METRICS` and hinting are
    /// not resolved by this method.
    pub fn horizontal_metrics(&self, glyph_id: u16) -> (r: Option<HorizontalMetrics>)
        ensures
            r == self@.metrics_of(glyph_id),
            r is Some <==> glyph_id < self@.maxp.num_glyphs,
    {
        proof {
            use_type_invariant(self);
        }
        let index: usize = glyph_id as usize;
        if index < self.horizontal_metrics.len() {
            Some(self.horizontal_metrics[index])
        } else {
            None
        }
    }
}

// ---------------------------------------------------------------------------
// Laws
// ---------------------------------------------------------------------------

/// Every font that is accepted is valid.
pub proof fn accepted_fonts_are_valid(data: Seq<u8>, font: FontModel)
    requires
        spec_font(data) == Ok::<_, FontError>(font),
    ensures
        font.valid(),
        font.data == data,
{
    tables::directory_records_fit(data, reader::u16_at(data, 4) as nat, font.tables);
}

/// The bytes of every glyph lie inside the file, and each glyph starts where the
/// one before it ends.
pub proof fn glyph_ranges_adjoin(font: FontModel, glyph_id: u16)
    requires
        font.valid(),
        glyph_id < font.maxp.num_glyphs,
    ensures
        font.glyph_range(glyph_id) matches Some((start, end)) && font.glyf().offset <= start <= end
            <= font.glyf().offset + font.glyf().length <= font.data.len(),
        glyph_id + 1 < font.maxp.num_glyphs ==> font.glyph_range(glyph_id)->Some_0.1
            == font.glyph_range((glyph_id + 1) as u16)->Some_0.0,
{
    assert(font.glyph_offsets[glyph_id as int] <= font.glyph_offsets[glyph_id + 1]);
    assert(font.glyph_offsets[glyph_id + 1] <= font.glyph_offsets.last());
}

/// Every code point maps to a glyph of the font.
pub proof fn every_code_point_maps_to_a_glyph(font: FontModel, codepoint: u32)
    requires
        font.valid(),
    ensures
        font.glyph_index(codepoint) < font.maxp.num_glyphs,
        font.glyph_range(font.glyph_index(codepoint)) is Some,
        font.metrics_of(font.glyph_index(codepoint)) is Some,
{
}

/// A composite glyph that leads back to itself is refused, whatever is left of
/// the budget.
pub proof fn cycles_are_refused(
    font: FontModel,
    glyph_id: u16,
    active: Seq<u16>,
    budget: GlyphLoadBudget,
)
    requires
        active.contains(glyph_id),
    ensures
        spec_load(font, glyph_id, active, budget).0 matches Err(error) && error.spec_kind()
            == super::error::ErrorKind::InvalidData,
        spec_load(font, glyph_id, active, budget).1 == budget,
{
}

/// Expansion is paid for exactly: a loaded glyph costs one visit, and one more for
/// every component at any depth, and as many points as its outline has. A failed
/// load never gives anything back.
pub proof fn loading_spends_the_budget(
    font: FontModel,
    glyph_id: u16,
    active: Seq<u16>,
    budget: GlyphLoadBudget,
)
    ensures
        ({
            let (loaded, left) = spec_load(font, glyph_id, active, budget);
            &&& left.visits <= budget.visits
            &&& left.points <= budget.points
            &&& loaded matches Ok(None) ==> {
                &&& left.visits + 1 == budget.visits
                &&& left.points == budget.points
            }
            &&& loaded matches Ok(Some(glyph)) ==> {
                &&& left.visits + 1 + glyph.steps.len() == budget.visits
                &&& left.points + glyph::point_total(glyph.contours) == budget.points
            }
        }),
    decreases MAX_GLYPH_LOAD_DEPTH - active.len(), 0int,
{
    if active.len() < MAX_GLYPH_LOAD_DEPTH && !active.contains(glyph_id) && budget.visits > 0 {
        let left = GlyphLoadBudget {
            visits: (budget.visits - 1) as usize,
            points: budget.points,
        };
        if let Some((start, end)) = font.glyph_range(glyph_id) {
            if start < end {
                let data = font.data.subrange(start, end);
                if reader::spec_require(data, 0, 10, "glyf header") is Ok {
                    if reader::i16_at(data, 0) < 0 {
                        let placed = GlyphModel {
                            bounds: glyph::bounds_at(data),
                            contours: Seq::empty(),
                            steps: Seq::empty(),
                        };
                        components_spend_the_budget(
                            font,
                            data,
                            10,
                            placed,
                            false,
                            active.push(glyph_id),
                            left,
                        );
                    }
                }
            }
        }
    }
}

proof fn components_spend_the_budget(
    font: FontModel,
    data: Seq<u8>,
    cursor: int,
    placed: GlyphModel,
    instructions: bool,
    active: Seq<u16>,
    budget: GlyphLoadBudget,
)
    ensures
        ({
            let (loaded, left) = spec_load_components(
                font,
                data,
                cursor,
                placed,
                instructions,
                active,
                budget,
            );
            &&& left.visits <= budget.visits
            &&& left.points <= budget.points
            &&& loaded matches Ok(glyph) ==> {
                &&& left.visits + glyph.steps.len() == budget.visits + placed.steps.len()
                &&& left.points + glyph::point_total(glyph.contours) == budget.points
                    + glyph::point_total(placed.contours)
            }
        }),
    decreases MAX_GLYPH_LOAD_DEPTH - active.len(), data.len() - cursor,
{
    if let Ok((component, next)) = component::component_at(data, cursor) {
        if !(cursor == 10 && component.placement is Points) {
            loading_spends_the_budget(font, component.glyph_id, active, budget);
            let (child, left) = spec_load(font, component.glyph_id, active, budget);
            if let Ok(child) = child {
                if let Ok(glyph) = component::with_component(placed, child, component) {
                    glyph::point_total_adds(placed.contours, component::outline_of(child).0);
                    if component.flags & MORE_COMPONENTS != 0 {
                        components_spend_the_budget(
                            font,
                            data,
                            next,
                            glyph,
                            instructions || component.flags & WE_HAVE_INSTRUCTIONS != 0,
                            active,
                            left,
                        );
                    }
                }
            }
        }
    }
}

/// No glyph of any font grows beyond the loader's limits.
pub proof fn loaded_glyphs_are_bounded(font: FontModel, glyph_id: u16, glyph: GlyphModel)
    requires
        spec_load(font, glyph_id, Seq::empty(), full_budget()).0 == Ok::<_, FontError>(
            Some(glyph),
        ),
    ensures
        glyph.steps.len() < MAX_GLYPH_LOAD_VISITS,
        glyph::point_total(glyph.contours) <= MAX_GLYPH_LOAD_POINTS,
{
    loading_spends_the_budget(font, glyph_id, Seq::empty(), full_budget());
}

} // verus!
