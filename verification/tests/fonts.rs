use no_graphics_api::simple_ttf::cmap::{parse_cmap_format4, parse_cmap_format12};
use no_graphics_api::simple_ttf::component::{
    ARG_1_AND_2_ARE_WORDS, ARGS_ARE_XY_VALUES, MORE_COMPONENTS, SCALED_COMPONENT_OFFSET,
    UNSCALED_COMPONENT_OFFSET, WE_HAVE_A_SCALE, WE_HAVE_A_TWO_BY_TWO, WE_HAVE_AN_X_AND_Y_SCALE,
    WE_HAVE_INSTRUCTIONS,
};
use no_graphics_api::simple_ttf::font::MAX_GLYPH_LOAD_DEPTH;
use no_graphics_api::simple_ttf::glyph::{ON_CURVE_POINT, parse_simple_glyph, read_coordinate_delta};
use no_graphics_api::simple_ttf::tables::{parse_head, parse_hmtx, parse_loca, validate_loca};
use no_graphics_api::simple_ttf::{
    ComponentTransform, Contour, ErrorKind, FontError, Glyph, GlyphBounds, GlyphLoadBudget,
    GlyphPoint, HorizontalMetrics, PathCommand, PathPoint, PointRef, RequiredTable, StepPlacement,
    TTFParser,
};

// ---------------------------------------------------------------------------
// A font in memory
// ---------------------------------------------------------------------------

fn header(contours: i16) -> Vec<u8> {
    [contours, -100, -100, 1000, 1000]
        .into_iter()
        .flat_map(i16::to_be_bytes)
        .collect()
}

fn simple(points: &[(i16, i16)]) -> Vec<u8> {
    assert!(!points.is_empty());
    let mut data = header(1);
    data.extend_from_slice(&((points.len() - 1) as u16).to_be_bytes());
    data.extend_from_slice(&0_u16.to_be_bytes()); // No instructions.
    data.extend(std::iter::repeat_n(ON_CURVE_POINT, points.len()));
    for axis in 0..2 {
        let mut previous = 0_i16;
        for &(x, y) in points {
            let coordinate = if axis == 0 { x } else { y };
            data.extend_from_slice(&(coordinate - previous).to_be_bytes());
            previous = coordinate;
        }
    }
    data
}

fn triangle() -> Vec<u8> {
    simple(&[(0, 0), (10, 0), (0, 10)])
}

fn record(flags: u16, id: u16, args: &[u8], transform: &[i16]) -> Vec<u8> {
    let mut data = Vec::new();
    data.extend_from_slice(&flags.to_be_bytes());
    data.extend_from_slice(&id.to_be_bytes());
    data.extend_from_slice(args);
    for value in transform {
        data.extend_from_slice(&value.to_be_bytes());
    }
    data
}

fn composite(records: &[Vec<u8>], instructions: Option<&[u8]>) -> Vec<u8> {
    let mut data = header(-1);
    for (index, record) in records.iter().enumerate() {
        let mut flags = u16::from_be_bytes([record[0], record[1]]);
        if index + 1 < records.len() {
            flags |= MORE_COMPONENTS;
        }
        data.extend_from_slice(&flags.to_be_bytes());
        data.extend_from_slice(&record[2..]);
    }
    if let Some(instructions) = instructions {
        data.extend_from_slice(&(instructions.len() as u16).to_be_bytes());
        data.extend_from_slice(instructions);
    }
    data
}

fn words(values: &[u16]) -> Vec<u8> {
    values.iter().flat_map(|value| value.to_be_bytes()).collect()
}

/// A format 4 subtable that maps single code points to glyphs.
fn format4(pairs: &[(u16, u16)]) -> Vec<u8> {
    let count = pairs.len() as u16 + 1;
    let mut body = vec![4, 16 + count * 8, 0, count * 2, 0, 0, 0];
    body.extend(pairs.iter().map(|pair| pair.0));
    body.push(0xffff);
    body.push(0);
    body.extend(pairs.iter().map(|pair| pair.0));
    body.push(0xffff);
    body.extend(pairs.iter().map(|pair| pair.1.wrapping_sub(pair.0)));
    body.push(1);
    body.extend(std::iter::repeat_n(0, count as usize));
    words(&body)
}

/// A format 12 subtable of runs.
fn format12(groups: &[(u32, u32, u32)]) -> Vec<u8> {
    let mut body = words(&[12, 0]);
    body.extend_from_slice(&(16 + groups.len() as u32 * 12).to_be_bytes());
    body.extend_from_slice(&0_u32.to_be_bytes());
    body.extend_from_slice(&(groups.len() as u32).to_be_bytes());
    for group in groups {
        body.extend_from_slice(&group.0.to_be_bytes());
        body.extend_from_slice(&group.1.to_be_bytes());
        body.extend_from_slice(&group.2.to_be_bytes());
    }
    body
}

fn cmap_table(subtables: &[(u16, u16, Vec<u8>)]) -> Vec<u8> {
    let mut data = words(&[0, subtables.len() as u16]);
    let mut offset = 4 + subtables.len() as u32 * 8;
    for (platform, encoding, bytes) in subtables {
        data.extend(words(&[*platform, *encoding]));
        data.extend_from_slice(&offset.to_be_bytes());
        offset += bytes.len() as u32;
    }
    for (_, _, bytes) in subtables {
        data.extend_from_slice(bytes);
    }
    data
}

fn tables_of(glyphs: &[Vec<u8>], cmap: Vec<u8>) -> Vec<([u8; 4], Vec<u8>)> {
    let mut glyf = Vec::new();
    let mut loca = vec![0_u8; 4];
    for glyph in glyphs {
        glyf.extend_from_slice(glyph);
        loca.extend_from_slice(&(glyf.len() as u32).to_be_bytes());
    }
    let mut head = vec![0_u8; 54];
    head[12..16].copy_from_slice(&0x5f0f_3cf5_u32.to_be_bytes());
    head[18..20].copy_from_slice(&1000_u16.to_be_bytes());
    head[50..52].copy_from_slice(&1_u16.to_be_bytes());
    let mut maxp = 0x0001_0000_u32.to_be_bytes().to_vec();
    maxp.extend_from_slice(&(glyphs.len() as u16).to_be_bytes());
    let mut hhea = vec![0_u8; 36];
    hhea[4..6].copy_from_slice(&800_i16.to_be_bytes());
    hhea[6..8].copy_from_slice(&(-200_i16).to_be_bytes());
    hhea[34..36].copy_from_slice(&1_u16.to_be_bytes());
    let mut hmtx = words(&[500, 10]);
    for index in 1..glyphs.len() {
        hmtx.extend_from_slice(&(index as i16).to_be_bytes());
    }
    vec![
        (*b"head", head),
        (*b"maxp", maxp),
        (*b"hhea", hhea),
        (*b"cmap", cmap),
        (*b"loca", loca),
        (*b"glyf", glyf),
        (*b"hmtx", hmtx),
    ]
}

fn file_of(tables: &[([u8; 4], Vec<u8>)]) -> Vec<u8> {
    let mut data = 0x0001_0000_u32.to_be_bytes().to_vec();
    data.extend(words(&[tables.len() as u16, 0, 0, 0]));
    let mut offset = 12 + tables.len() * 16;
    for (tag, bytes) in tables {
        data.extend_from_slice(tag);
        data.extend_from_slice(&0_u32.to_be_bytes());
        data.extend_from_slice(&(offset as u32).to_be_bytes());
        data.extend_from_slice(&(bytes.len() as u32).to_be_bytes());
        offset += bytes.len();
    }
    for (_, bytes) in tables {
        data.extend_from_slice(bytes);
    }
    data
}

fn font_with(glyphs: &[Vec<u8>], cmap: Vec<u8>) -> TTFParser {
    TTFParser::from_bytes(file_of(&tables_of(glyphs, cmap))).unwrap()
}

fn font(glyphs: &[Vec<u8>]) -> TTFParser {
    font_with(glyphs, cmap_table(&[(3, 1, format4(&[(65, 0)]))]))
}

/// An `A` of straight lines and an `S` with control points.
fn lettered() -> TTFParser {
    let mut curved = simple(&[(0, 0), (10, 10), (20, 10), (30, 0)]);
    curved[15] = 0;
    curved[16] = 0;
    font_with(
        &[triangle(), triangle(), curved],
        cmap_table(&[(3, 1, format4(&[(65, 1), (83, 2)]))]),
    )
}

// ---------------------------------------------------------------------------
// Carrying out the steps of a glyph in floating point
// ---------------------------------------------------------------------------

fn transformed(transform: &ComponentTransform, x: f32, y: f32) -> (f32, f32) {
    let unit = 16384.0;
    let (xx, yx) = (f32::from(transform.xx) / unit, f32::from(transform.yx) / unit);
    let (xy, yy) = (f32::from(transform.xy) / unit, f32::from(transform.yy) / unit);
    (xx * x + xy * y, yx * x + yy * y)
}

fn placed(glyph: &Glyph) -> Vec<Vec<(f32, f32)>> {
    let mut contours: Vec<Vec<(f32, f32)>> = glyph
        .contours
        .iter()
        .map(|contour| {
            contour
                .points
                .iter()
                .map(|point| (point.x as f32, point.y as f32))
                .collect()
        })
        .collect();
    for step in &glyph.steps {
        let offset = match step.placement {
            StepPlacement::Offset { x, y, scaled } => {
                let (x, y) = (f32::from(x), f32::from(y));
                if scaled {
                    transformed(&step.transform, x, y)
                } else {
                    (x, y)
                }
            }
            StepPlacement::Attach { parent, child } => {
                let to = contours[parent.contour][parent.point];
                let from = contours[child.contour][child.point];
                let from = transformed(&step.transform, from.0, from.1);
                (to.0 - from.0, to.1 - from.1)
            }
        };
        for contour in &mut contours[step.start..step.end] {
            for point in contour {
                let moved = transformed(&step.transform, point.0, point.1);
                *point = (moved.0 + offset.0, moved.1 + offset.1);
            }
        }
    }
    contours
}

fn points(glyph: &Glyph) -> Vec<(f32, f32)> {
    placed(glyph).into_iter().flatten().collect()
}

fn resolve(contours: &[Vec<(f32, f32)>], point: PathPoint) -> (f32, f32) {
    match point {
        PathPoint::Explicit(place) => contours[place.contour][place.point],
        PathPoint::Midpoint(first, second) => {
            let a = contours[first.contour][first.point];
            let b = contours[second.contour][second.point];
            ((a.0 + b.0) * 0.5, (a.1 + b.1) * 0.5)
        }
    }
}

// ---------------------------------------------------------------------------
// Tables, maps and metrics
// ---------------------------------------------------------------------------

#[test]
fn parses_required_tables_and_maps_bmp_characters() {
    let font = lettered();
    let glyph_id = font.glyph_index('A' as u32);

    assert_eq!(font.units_per_em(), 1000);
    assert!(font.num_glyphs() > 1);
    assert_ne!(glyph_id, 0);
    assert_eq!(font.glyph_index(0x11_0000), 0);
    assert!(
        font.glyph_range(glyph_id)
            .is_some_and(|range| !range.is_empty())
    );
}

#[test]
fn parses_simple_glyph_points_and_paths() {
    let font = lettered();
    let glyph = font
        .load_glyph(font.glyph_index('S' as u32))
        .unwrap()
        .unwrap();

    assert!(!glyph.contours.is_empty());
    assert!(
        glyph
            .contours
            .iter()
            .all(|contour| !contour.points.is_empty())
    );
    assert!(matches!(
        glyph.path_commands().first(),
        Some(PathCommand::MoveTo(_))
    ));
    assert!(
        glyph
            .path_commands()
            .iter()
            .any(|command| matches!(command, PathCommand::QuadTo { .. }))
    );
}

#[test]
fn reads_horizontal_metrics() {
    let font = lettered();
    let glyph_id = font.glyph_index('A' as u32);
    let metrics = font.horizontal_metrics(glyph_id).unwrap();

    assert!(metrics.advance_width > 0);
    assert!(font.hhea().number_of_h_metrics <= font.num_glyphs());
    assert!(font.horizontal_metrics(font.num_glyphs()).is_none());
}

#[test]
fn inserts_implied_points_between_off_curve_points() {
    let contour = Contour {
        points: vec![
            GlyphPoint { x: 0, y: 0, on_curve: true },
            GlyphPoint { x: 10, y: 10, on_curve: false },
            GlyphPoint { x: 20, y: 10, on_curve: false },
            GlyphPoint { x: 30, y: 0, on_curve: true },
        ],
    };

    let positions = vec![vec![(0.0, 0.0), (10.0, 10.0), (20.0, 10.0), (30.0, 0.0)]];
    let commands = contour.path_commands();
    let quadratic = |index: usize| match commands[index] {
        PathCommand::QuadTo { control, end } => {
            (resolve(&positions, control), resolve(&positions, end))
        }
        _ => panic!("expected a quadratic"),
    };
    assert_eq!(quadratic(1), ((10.0, 10.0), (15.0, 10.0)));
    assert_eq!(quadratic(2), ((20.0, 10.0), (30.0, 0.0)));
}

#[test]
fn format_4_applies_glyph_array_offsets_and_delta() {
    let data = [
        0x00, 0x04, 0x00, 0x22, 0x00, 0x00, 0x00, 0x04, 0x00, 0x04, 0x00, 0x01, 0x00, 0x00, 0x00,
        0x41, 0xff, 0xff, 0x00, 0x00, 0x00, 0x41, 0xff, 0xff, 0x00, 0x02, 0x00, 0x01, 0x00, 0x04,
        0x00, 0x00, 0x00, 0x05,
    ];
    let cmap = parse_cmap_format4(&data).unwrap();

    assert_eq!(cmap.glyph_index('A' as u32), Some(7));
    assert_eq!(cmap.glyph_index('B' as u32), None);
}

#[test]
fn hmtx_reuses_the_last_advance_width() {
    let data = [0x01, 0xf4, 0x00, 0x0a, 0xff, 0xec, 0x00, 0x1e];
    let metrics = parse_hmtx(&data, 3, 1).unwrap();

    assert_eq!(metrics[0].advance_width, 500);
    assert_eq!(
        metrics[1],
        HorizontalMetrics {
            advance_width: 500,
            left_side_bearing: -20,
        }
    );
    assert_eq!(
        metrics[2],
        HorizontalMetrics {
            advance_width: 500,
            left_side_bearing: 30,
        }
    );
}

#[test]
fn headers_are_read_as_stored() {
    let mut font = lettered();
    assert_eq!(font.head().units_per_em, 1000);
    assert_eq!(font.head().index_to_loc_format, 1);
    assert_eq!(font.maxp().version, 0x0001_0000);
    assert_eq!(font.maxp().num_glyphs, 3);
    assert_eq!(font.hhea().ascender, 800);
    assert_eq!(font.hhea().descender, -200);
    assert_eq!(font.hhea().line_gap, 0);
    assert_eq!(font.parse_information().num_glyphs(), 3);
}

#[test]
fn format_12_answers_before_format_4() {
    let glyphs = [triangle(), triangle(), triangle()];
    let both = cmap_table(&[
        (3, 1, format4(&[(65, 1), (66, 1)])),
        (3, 10, format12(&[(65, 65, 2), (0x1f600, 0x1f601, 1)])),
    ]);
    let font = font_with(&glyphs, both);
    assert_eq!(font.glyph_index(65), 2);
    assert_eq!(font.glyph_index(66), 1);
    assert_eq!(font.glyph_index(0x1f600), 1);
    assert_eq!(font.glyph_index(0x1f601), 2);
    assert_eq!(font.glyph_index(0x1f602), 0);
    assert_eq!(font.glyph_index(67), 0);
}

#[test]
fn glyphs_outside_the_font_become_glyph_zero() {
    let glyphs = [triangle(), triangle()];
    let cmap = cmap_table(&[(0, 3, format12(&[(65, 66, 1)]))]);
    let font = font_with(&glyphs, cmap);
    assert_eq!(font.glyph_index(65), 1);
    assert_eq!(font.glyph_index(66), 0);
}

#[test]
fn format_12_groups_must_ascend() {
    let cmap = parse_cmap_format12(&format12(&[(10, 20, 1), (30, 40, 5)])).unwrap();
    assert_eq!(cmap.glyph_index(9), None);
    assert_eq!(cmap.glyph_index(10), Some(1));
    assert_eq!(cmap.glyph_index(20), Some(11));
    assert_eq!(cmap.glyph_index(25), None);
    assert_eq!(cmap.glyph_index(40), Some(15));
    assert!(matches!(
        parse_cmap_format12(&format12(&[(10, 20, 1), (20, 40, 5)])),
        Err(FontError::InvalidData("invalid cmap format 12 groups"))
    ));
}

#[test]
fn glyph_ranges_follow_each_other() {
    let font = font(&[triangle(), Vec::new(), triangle()]);
    let first = font.glyph_range(0).unwrap();
    let second = font.glyph_range(1).unwrap();
    let third = font.glyph_range(2).unwrap();
    assert_eq!(first.len(), triangle().len());
    assert_eq!(first.end, second.start);
    assert!(second.is_empty());
    assert_eq!(second.end, third.start);
    assert!(font.glyph_range(3).is_none());
    assert!(font.load_glyph(1).unwrap().is_none());
}

#[test]
fn every_required_table_is_asked_for() {
    let all = tables_of(&[triangle()], cmap_table(&[(3, 1, format4(&[(65, 0)]))]));
    let wanted = [
        (*b"head", RequiredTable::Head),
        (*b"maxp", RequiredTable::Maxp),
        (*b"hhea", RequiredTable::Hhea),
        (*b"cmap", RequiredTable::Cmap),
        (*b"loca", RequiredTable::Loca),
        (*b"glyf", RequiredTable::Glyf),
        (*b"hmtx", RequiredTable::Hmtx),
    ];
    for (tag, table) in wanted {
        let rest: Vec<([u8; 4], Vec<u8>)> =
            all.iter().filter(|entry| entry.0 != tag).cloned().collect();
        let error = TTFParser::from_bytes(file_of(&rest)).err().unwrap();
        assert_eq!(error, FontError::MissingTable(table));
        assert_eq!(error.kind(), ErrorKind::InvalidData);
        let name = String::from_utf8(tag.to_vec()).unwrap();
        assert_eq!(error.message(), format!("required table {name:?} is missing"));
    }
}

#[test]
fn damaged_files_are_refused() {
    let all = tables_of(&[triangle()], cmap_table(&[(3, 1, format4(&[(65, 0)]))]));
    let good = file_of(&all);
    assert!(TTFParser::from_bytes(good.clone()).is_ok());
    let truncated = TTFParser::from_bytes(good[..11].to_vec()).err().unwrap();
    assert_eq!(truncated, FontError::UnexpectedEof("offset table"));
    assert_eq!(truncated.message(), "truncated offset table");
    let mut wrong = good.clone();
    wrong[0..4].copy_from_slice(b"OTTO");
    assert_eq!(
        TTFParser::from_bytes(wrong).err().unwrap(),
        FontError::InvalidData("font does not contain TrueType outlines")
    );
    let mut twice = all.clone();
    twice.push(twice[0].clone());
    assert_eq!(
        TTFParser::from_bytes(file_of(&twice)).err().unwrap(),
        FontError::InvalidData("duplicate table tag")
    );
    let cut = good[..good.len() - 1].to_vec();
    assert_eq!(
        TTFParser::from_bytes(cut).err().unwrap(),
        FontError::UnexpectedEof("font table")
    );
}

#[test]
fn head_and_loca_are_checked() {
    let mut head = vec![0_u8; 54];
    head[12..16].copy_from_slice(&0x5f0f_3cf5_u32.to_be_bytes());
    head[18..20].copy_from_slice(&15_u16.to_be_bytes());
    assert_eq!(
        parse_head(&head).err().unwrap(),
        FontError::InvalidData("head.unitsPerEm is outside the valid range")
    );
    head[18..20].copy_from_slice(&16_u16.to_be_bytes());
    head[50..52].copy_from_slice(&2_u16.to_be_bytes());
    assert_eq!(
        parse_head(&head).err().unwrap(),
        FontError::InvalidData("unsupported head.indexToLocFormat")
    );
    head[12] = 0;
    assert_eq!(
        parse_head(&head).err().unwrap(),
        FontError::InvalidData("invalid head magic number")
    );
    assert_eq!(parse_loca(&words(&[0, 5, 9]), 0, 2).unwrap(), [0, 10, 18]);
    assert!(validate_loca(&[0, 10, 18], 18).is_ok());
    assert_eq!(
        validate_loca(&[0, 10, 18], 17).err().unwrap(),
        FontError::InvalidData("loca offset is outside the glyf table")
    );
    assert_eq!(
        validate_loca(&[0, 10, 9], 18).err().unwrap(),
        FontError::InvalidData("loca offsets are not ordered")
    );
}

// ---------------------------------------------------------------------------
// Simple glyphs
// ---------------------------------------------------------------------------

#[test]
fn packed_flags_and_short_deltas_are_decoded() {
    let mut data = header(1);
    data.extend(words(&[3, 2, 0xabcd])); // Last point 3, two instruction bytes.
    // Short positive x, repeated y; the flag covers three points.
    data.extend_from_slice(&[0x01 | 0x02 | 0x10 | 0x20 | 0x08, 2]);
    // Short negative x and y, off the curve.
    data.push(0x02 | 0x04);
    data.extend_from_slice(&[5, 6, 7, 4]); // x deltas
    data.push(9); // y delta of the last point
    let glyph = parse_simple_glyph(&data).unwrap();
    assert_eq!(
        glyph.bounds,
        GlyphBounds { x_min: -100, y_min: -100, x_max: 1000, y_max: 1000 }
    );
    assert_eq!(
        glyph.contours[0].points,
        [
            GlyphPoint { x: 5, y: 0, on_curve: true },
            GlyphPoint { x: 11, y: 0, on_curve: true },
            GlyphPoint { x: 18, y: 0, on_curve: true },
            GlyphPoint { x: 14, y: -9, on_curve: false },
        ]
    );
    assert!(glyph.steps.is_empty());
    data.truncate(data.len() - 1);
    assert_eq!(
        parse_simple_glyph(&data).err().unwrap(),
        FontError::UnexpectedEof("u8")
    );
}

#[test]
fn malformed_simple_glyphs_are_refused() {
    let mut repeated = header(1);
    repeated.extend(words(&[1, 0]));
    repeated.extend_from_slice(&[0x08, 2]);
    assert_eq!(
        parse_simple_glyph(&repeated).err().unwrap(),
        FontError::InvalidData("glyf flag repeat exceeds point count")
    );
    let mut unordered = header(2);
    unordered.extend(words(&[4, 4, 0]));
    assert_eq!(
        parse_simple_glyph(&unordered).err().unwrap(),
        FontError::InvalidData("glyf contour endpoints are not ordered")
    );
    assert_eq!(
        parse_simple_glyph(&header(-1)).err().unwrap(),
        FontError::InvalidData("composite passed to simple glyph decoder")
    );
    assert!(parse_simple_glyph(&header(0)).unwrap().contours.is_empty());
    let mut instructed = header(1);
    instructed.extend(words(&[0, 9]));
    assert_eq!(
        parse_simple_glyph(&instructed).err().unwrap(),
        FontError::UnexpectedEof("glyf instructions")
    );
}

#[test]
fn coordinate_deltas_are_read_from_any_place() {
    let data = [5, 0xff, 0xfe];
    let delta = |mut cursor: usize, flag: u8| {
        let result = read_coordinate_delta(&data, &mut cursor, flag, 0x02, 0x10);
        (result, cursor)
    };
    assert_eq!(delta(0, 0x12), (Ok(5), 1));
    assert_eq!(delta(0, 0x02), (Ok(-5), 1));
    assert_eq!(delta(1, 0), (Ok(-2), 3));
    assert_eq!(delta(2, 0), (Err(FontError::UnexpectedEof("i16")), 2));
    // Beyond the data a repeated coordinate still needs no byte.
    assert_eq!(delta(9, 0x10), (Ok(0), 9));
    assert_eq!(delta(9, 0x02), (Err(FontError::UnexpectedEof("u8")), 9));
    assert_eq!(
        delta(usize::MAX, 0),
        (Err(FontError::InvalidData("font data range overflow")), usize::MAX)
    );
}

// ---------------------------------------------------------------------------
// Paths
// ---------------------------------------------------------------------------

#[test]
fn paths_close_where_they_start() {
    let on = |x: i32| GlyphPoint { x, y: 0, on_curve: true };
    let off = |x: i32| GlyphPoint { x, y: 0, on_curve: false };
    let place = |point: usize| PointRef { contour: 0, point };
    let square = Contour { points: vec![off(0), on(1), on(2)] };
    assert_eq!(
        square.path_commands(),
        [
            PathCommand::MoveTo(PathPoint::Explicit(place(1))),
            PathCommand::LineTo(PathPoint::Explicit(place(2))),
            PathCommand::QuadTo {
                control: PathPoint::Explicit(place(0)),
                end: PathPoint::Explicit(place(1)),
            },
        ]
    );
    let circle = Contour { points: vec![off(0), off(1)] };
    let middle = PathPoint::Midpoint(place(0), place(1));
    let other = PathPoint::Midpoint(place(1), place(0));
    assert_eq!(
        circle.path_commands(),
        [
            PathCommand::MoveTo(middle),
            PathCommand::QuadTo { control: PathPoint::Explicit(place(1)), end: other },
            PathCommand::QuadTo { control: PathPoint::Explicit(place(0)), end: middle },
        ]
    );
    assert!(Contour { points: Vec::new() }.path_commands().is_empty());
}

#[test]
fn paths_have_a_command_for_every_curve_point() {
    // One for the start, one for each point on the curve, one for each midpoint.
    for (curve, count) in [
        (vec![true], 2),
        (vec![false], 2),
        (vec![true, true, true], 4),
        (vec![true, false, false, true], 4),
        (vec![false, true, false, false], 4),
        (vec![false, false, false], 4),
    ] {
        let points = curve
            .into_iter()
            .map(|on_curve| GlyphPoint { x: 0, y: 0, on_curve })
            .collect();
        assert_eq!(Contour { points }.path_commands().len(), count);
    }
}

#[test]
fn every_contour_has_its_own_start() {
    let two = composite(
        &[
            record(ARGS_ARE_XY_VALUES, 0, &[0, 0], &[]),
            record(ARGS_ARE_XY_VALUES, 0, &[9, 0], &[]),
        ],
        None,
    );
    let glyph = font(&[triangle(), two]).load_glyph(1).unwrap().unwrap();
    let commands = glyph.path_commands();
    let starts = commands
        .iter()
        .filter(|command| matches!(command, PathCommand::MoveTo(_)))
        .count();
    assert_eq!(starts, 2);
    assert_eq!(commands.len(), 8);
}

// ---------------------------------------------------------------------------
// Composite glyphs
// ---------------------------------------------------------------------------

#[test]
fn signed_byte_offsets_and_contour_closure() {
    let data = composite(&[record(ARGS_ARE_XY_VALUES, 0, &[254, 100], &[])], None);
    let parser = font(&[triangle(), data]);
    let glyph = parser.load_glyph(1).unwrap().unwrap();
    assert_eq!(points(&glyph), [(-2.0, 100.0), (8.0, 100.0), (-2.0, 110.0)]);
    match glyph.path_commands().last() {
        Some(PathCommand::LineTo(point)) => {
            assert_eq!(resolve(&placed(&glyph), *point), (-2.0, 100.0));
        }
        _ => panic!("expected a line"),
    }
}

#[test]
fn signed_word_offsets() {
    let args: Vec<u8> = [-300_i16, 400].into_iter().flat_map(i16::to_be_bytes).collect();
    let data = composite(
        &[record(ARGS_ARE_XY_VALUES | ARG_1_AND_2_ARE_WORDS, 0, &args, &[])],
        None,
    );
    let glyph = font(&[triangle(), data]).load_glyph(1).unwrap().unwrap();
    assert_eq!(points(&glyph)[0], (-300.0, 400.0));
}

#[test]
fn uniform_nonuniform_and_full_matrix_transforms() {
    let cases = [
        (WE_HAVE_A_SCALE, vec![8192], vec![(0.0, 0.0), (5.0, 0.0), (0.0, 5.0)]),
        (
            WE_HAVE_AN_X_AND_Y_SCALE,
            vec![8192, 24576],
            vec![(0.0, 0.0), (5.0, 0.0), (0.0, 15.0)],
        ),
        // Stored order is xx, yx, xy, yy. Unequal off-diagonals detect transposition.
        (
            WE_HAVE_A_TWO_BY_TWO,
            vec![16384, 8192, -4096, 24576],
            vec![(0.0, 0.0), (10.0, 5.0), (-2.5, 15.0)],
        ),
    ];
    for (flags, transform, expected) in cases {
        let data = composite(
            &[record(flags | ARGS_ARE_XY_VALUES, 0, &[0, 0], &transform)],
            None,
        );
        let glyph = font(&[triangle(), data]).load_glyph(1).unwrap().unwrap();
        assert_eq!(points(&glyph), expected);
    }
}

#[test]
fn offset_scaling_default_and_conflicting_flags() {
    for (offset_flags, expected) in [
        (0, (10.0, 20.0)),
        (UNSCALED_COMPONENT_OFFSET, (10.0, 20.0)),
        (SCALED_COMPONENT_OFFSET, (5.0, 10.0)),
        (SCALED_COMPONENT_OFFSET | UNSCALED_COMPONENT_OFFSET, (10.0, 20.0)),
    ] {
        let data = composite(
            &[record(
                ARGS_ARE_XY_VALUES | WE_HAVE_A_SCALE | offset_flags,
                0,
                &[10, 20],
                &[8192],
            )],
            None,
        );
        let glyph = font(&[triangle(), data]).load_glyph(1).unwrap().unwrap();
        assert_eq!(points(&glyph)[0], expected);
    }
}

#[test]
fn nested_components_and_repeated_siblings_are_allowed() {
    let child = composite(&[record(ARGS_ARE_XY_VALUES, 0, &[10, 20], &[])], None);
    let parent = composite(
        &[
            record(ARGS_ARE_XY_VALUES | WE_HAVE_A_SCALE, 1, &[100, 0], &[8192]),
            record(ARGS_ARE_XY_VALUES, 1, &[0, 0], &[]),
        ],
        None,
    );
    let glyph = font(&[triangle(), child, parent])
        .load_glyph(2)
        .unwrap()
        .unwrap();
    assert_eq!(
        points(&glyph),
        [
            (105.0, 10.0),
            (110.0, 10.0),
            (105.0, 15.0),
            (10.0, 20.0),
            (20.0, 20.0),
            (10.0, 30.0),
        ]
    );
}

#[test]
fn point_attachment_after_transform() {
    let data = composite(
        &[
            record(ARGS_ARE_XY_VALUES, 0, &[100, 100], &[]),
            record(WE_HAVE_A_SCALE, 0, &[1, 2], &[8192]),
        ],
        None,
    );
    let glyph = font(&[triangle(), data]).load_glyph(1).unwrap().unwrap();
    assert_eq!(points(&glyph)[3], (110.0, 95.0));
    assert_eq!(points(&glyph)[5], points(&glyph)[1]);
}

#[test]
fn unsigned_point_indices_in_byte_and_word_forms() {
    let leaf = simple(&(0_i16..201).map(|x| (x, 0)).collect::<Vec<_>>());
    for (flags, args) in [
        (0, vec![200, 200]),
        (ARG_1_AND_2_ARE_WORDS, vec![0, 200, 0, 200]),
    ] {
        let data = composite(
            &[
                record(ARGS_ARE_XY_VALUES, 0, &[10, 20], &[]),
                record(flags, 0, &args, &[]),
            ],
            None,
        );
        let glyph = font(&[leaf.clone(), data]).load_glyph(1).unwrap().unwrap();
        assert_eq!(points(&glyph)[401], (210.0, 20.0));
    }
}

#[test]
fn attachment_indices_span_contours_and_exclude_implied_points() {
    let mut leaf = triangle();
    leaf[15] = 0;
    leaf[16] = 0; // Consecutive off-curve controls imply an extra path point.
    let child = composite(
        &[
            record(ARGS_ARE_XY_VALUES, 0, &[0, 0], &[]),
            record(ARGS_ARE_XY_VALUES, 0, &[100, 0], &[]),
        ],
        None,
    );
    let parent = composite(
        &[
            record(ARGS_ARE_XY_VALUES, 1, &[0, 0], &[]),
            record(0, 0, &[4, 1], &[]),
        ],
        None,
    );
    let glyph = font(&[leaf, child, parent]).load_glyph(2).unwrap().unwrap();
    assert_eq!(points(&glyph)[7], points(&glyph)[4]);
    assert!(!glyph.contours[2].points[1].on_curve);
}

#[test]
fn instructions_on_nonfinal_component_are_checked() {
    let records = [
        record(ARGS_ARE_XY_VALUES | WE_HAVE_INSTRUCTIONS, 0, &[0, 0], &[]),
        record(ARGS_ARE_XY_VALUES, 0, &[10, 0], &[]),
    ];
    let data = composite(&records, Some(&[0, 1, 2]));
    assert!(font(&[triangle(), data.clone()]).load_glyph(1).is_ok());
    let mut truncated = data;
    truncated.pop();
    assert_eq!(
        font(&[triangle(), truncated]).load_glyph(1).unwrap_err().kind(),
        ErrorKind::UnexpectedEof
    );
}

#[test]
fn malformed_components_and_phantom_points_are_reported() {
    let invalid_records = [
        record(ARGS_ARE_XY_VALUES, 99, &[0, 0], &[]),
        record(
            ARGS_ARE_XY_VALUES | WE_HAVE_A_SCALE | WE_HAVE_A_TWO_BY_TWO,
            0,
            &[0, 0],
            &[],
        ),
        record(0, 0, &[0, 0], &[]), // First component cannot use point attachment.
    ];
    for record in invalid_records {
        let data = composite(&[record], None);
        assert_eq!(
            font(&[triangle(), data]).load_glyph(1).unwrap_err().kind(),
            ErrorKind::InvalidData
        );
    }
    for (index, expected) in [(3, ErrorKind::Unsupported), (100, ErrorKind::InvalidData)] {
        let data = composite(
            &[
                record(ARGS_ARE_XY_VALUES, 0, &[0, 0], &[]),
                record(0, 0, &[0, index], &[]),
            ],
            None,
        );
        assert_eq!(
            font(&[triangle(), data]).load_glyph(1).unwrap_err().kind(),
            expected
        );
    }
}

#[test]
fn truncated_component_records_are_rejected() {
    let data = composite(
        &[record(
            ARGS_ARE_XY_VALUES | WE_HAVE_A_TWO_BY_TWO,
            0,
            &[0, 0],
            &[16384, 0, 0, 16384],
        )],
        None,
    );
    for end in 10..data.len() {
        let truncated = data[..end].to_vec();
        assert_eq!(
            font(&[triangle(), truncated]).load_glyph(1).unwrap_err().kind(),
            ErrorKind::UnexpectedEof
        );
    }
}

#[test]
fn empty_components_and_missing_glyph_data() {
    let data = composite(&[record(ARGS_ARE_XY_VALUES, 0, &[0, 0], &[])], None);
    let parser = font(&[Vec::new(), data]);
    assert!(parser.load_glyph(0).unwrap().is_none());
    assert!(parser.load_glyph(1).unwrap().unwrap().contours.is_empty());
}

#[test]
fn cycles_and_depth_limits_are_rejected() {
    let direct = composite(&[record(ARGS_ARE_XY_VALUES, 0, &[0, 0], &[])], None);
    assert_eq!(
        font(&[direct]).load_glyph(0).unwrap_err().kind(),
        ErrorKind::InvalidData
    );
    let a = composite(&[record(ARGS_ARE_XY_VALUES, 1, &[0, 0], &[])], None);
    let b = composite(&[record(ARGS_ARE_XY_VALUES, 0, &[0, 0], &[])], None);
    assert_eq!(
        font(&[a, b]).load_glyph(0).unwrap_err().kind(),
        ErrorKind::InvalidData
    );
    let mut glyphs = vec![triangle()];
    for id in 0..MAX_GLYPH_LOAD_DEPTH as u16 {
        glyphs.push(composite(&[record(ARGS_ARE_XY_VALUES, id, &[0, 0], &[])], None));
    }
    assert!(
        font(&glyphs)
            .load_glyph(MAX_GLYPH_LOAD_DEPTH as u16 - 1)
            .is_ok()
    );
    assert_eq!(
        font(&glyphs)
            .load_glyph(MAX_GLYPH_LOAD_DEPTH as u16)
            .unwrap_err()
            .kind(),
        ErrorKind::InvalidData
    );
}

#[test]
fn expansion_budgets_apply_across_siblings() {
    let data = composite(
        &[
            record(ARGS_ARE_XY_VALUES, 0, &[0, 0], &[]),
            record(ARGS_ARE_XY_VALUES, 0, &[0, 0], &[]),
        ],
        None,
    );
    let parser = font(&[triangle(), data]);
    for (visits, points) in [(2, 100), (100, 5)] {
        let mut active = Vec::new();
        let mut budget = GlyphLoadBudget { visits, points };
        assert_eq!(
            parser
                .load_glyph_inner(1, &mut active, &mut budget)
                .unwrap_err()
                .kind(),
            ErrorKind::InvalidData
        );
        assert!(active.is_empty());
    }
}

#[test]
fn loading_costs_visits_and_points() {
    let data = composite(
        &[
            record(ARGS_ARE_XY_VALUES, 0, &[0, 0], &[]),
            record(ARGS_ARE_XY_VALUES, 0, &[0, 0], &[]),
        ],
        None,
    );
    let parser = font(&[triangle(), data]);
    let mut active = vec![7];
    let mut budget = GlyphLoadBudget { visits: 10, points: 10 };
    let glyph = parser
        .load_glyph_inner(1, &mut active, &mut budget)
        .unwrap()
        .unwrap();
    assert_eq!(glyph.steps.len(), 2);
    assert_eq!(budget, GlyphLoadBudget { visits: 7, points: 4 });
    assert_eq!(active, [7]);
}
