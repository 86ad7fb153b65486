use no_graphics_api::F32Bits;
use no_graphics_api::glyph_raster::{
    CurveSegment, GpuQuadratic, InvalidInput, PixelSpan, PreparedGlyph, RasterJob, RasterPlacement,
    encode_segments, plan_curves, prepare_glyph,
};
use no_graphics_api::simple_ttf::{
    Contour, Glyph, GlyphBounds, GlyphPoint, PathCommand, PathPoint, PointRef,
};

fn bits(value: f32) -> F32Bits {
    F32Bits(value.to_bits())
}

fn point(contour: usize, point: usize) -> PathPoint {
    PathPoint::Explicit(PointRef { contour, point })
}

fn curved() -> Glyph {
    Glyph {
        bounds: GlyphBounds { x_min: 0, y_min: 0, x_max: 100, y_max: 100 },
        contours: vec![Contour {
            points: vec![
                GlyphPoint { x: 0, y: 0, on_curve: true },
                GlyphPoint { x: 50, y: 100, on_curve: false },
                GlyphPoint { x: 100, y: 0, on_curve: true },
            ],
        }],
        steps: Vec::new(),
    }
}

#[test]
fn contours_become_curves() {
    assert_eq!(
        prepare_glyph(&curved()).unwrap(),
        [
            CurveSegment { start: point(0, 0), control: Some(point(0, 1)), end: point(0, 2) },
            CurveSegment { start: point(0, 2), control: None, end: point(0, 0) },
        ]
    );
}

#[test]
fn curves_need_a_start() {
    let line = PathCommand::LineTo(point(0, 0));
    assert_eq!(
        plan_curves(&vec![line]),
        Err(InvalidInput("line without a starting point"))
    );
    let quadratic = PathCommand::QuadTo { control: point(0, 0), end: point(0, 1) };
    assert_eq!(
        plan_curves(&vec![quadratic]),
        Err(InvalidInput("quadratic without a starting point"))
    );
    assert_eq!(plan_curves(&Vec::new()), Ok(Vec::new()));
}

#[test]
fn segments_are_encoded_in_little_endian() {
    let first = GpuQuadratic {
        p0_p1: [bits(1.0), bits(2.0), bits(3.0), bits(4.0)],
        p2_winding: [bits(5.0), bits(6.0), bits(-1.0), bits(0.0)],
    };
    let second = GpuQuadratic { p0_p1: first.p2_winding, p2_winding: first.p0_p1 };
    let bytes = encode_segments(&[first, second]);
    assert_eq!(bytes.len(), 2 * 32);
    let mut expected = Vec::new();
    for value in [
        1.0_f32, 2.0, 3.0, 4.0, 5.0, 6.0, -1.0, 0.0, 5.0, 6.0, -1.0, 0.0, 1.0, 2.0, 3.0, 4.0,
    ] {
        expected.extend_from_slice(&value.to_le_bytes());
    }
    assert_eq!(bytes, expected);
    assert!(encode_segments(&[]).is_empty());
}

#[test]
fn jobs_are_encoded_in_little_endian() {
    let job = RasterJob {
        rect: [1, 2, 17, 8],
        segment_range: [5, 6, 0x0102_0304, 0],
        mapping: [bits(0.5), bits(-1.25), bits(3.0), bits(0.0)],
    };
    assert_eq!(job.workgroups(), [3, 1, 1]);
    let mut expected = Vec::new();
    for value in [1_u32, 2, 17, 8, 5, 6, 0x0102_0304, 0] {
        expected.extend_from_slice(&value.to_le_bytes());
    }
    for value in [0.5_f32, -1.25, 3.0, 0.0] {
        expected.extend_from_slice(&value.to_le_bytes());
    }
    assert_eq!(job.to_le_bytes().to_vec(), expected);
}

fn prepared(count: usize) -> PreparedGlyph {
    let zero = [F32Bits::ZERO(); 4];
    PreparedGlyph {
        segments: vec![GpuQuadratic { p0_p1: zero, p2_winding: zero }; count],
        bounds: zero,
    }
}

#[test]
fn sizes_and_phases_are_checked() {
    let glyph = prepared(1);
    let phase = [bits(0.0), bits(0.75)];
    assert_eq!(glyph.check_placement(bits(16.0), 1000, phase), Ok(true));
    assert_eq!(prepared(0).check_placement(bits(16.0), 1000, phase), Ok(false));
    let refused = Err(InvalidInput("invalid ppem, units_per_em, or fractional phase"));
    assert_eq!(glyph.check_placement(bits(0.0), 1000, phase), refused);
    assert_eq!(glyph.check_placement(bits(f32::NAN), 1000, phase), refused);
    assert_eq!(glyph.check_placement(bits(f32::INFINITY), 1000, phase), refused);
    assert_eq!(glyph.check_placement(bits(16.0), 0, phase), refused);
    assert_eq!(glyph.check_placement(bits(16.0), 1000, [bits(1.0), bits(0.0)]), refused);
    assert_eq!(glyph.check_placement(bits(16.0), 1000, [bits(0.0), bits(-0.5)]), refused);
}

#[test]
fn placements_cover_their_pixels() {
    let glyph = prepared(1);
    let phase = [bits(0.25), bits(0.5)];
    let across = PixelSpan { low: Some(-2), high: Some(9) };
    let down = PixelSpan { low: Some(-8), high: Some(1) };
    assert_eq!(
        glyph.placement(bits(0.016), bits(62.5), phase, across, down),
        Ok(RasterPlacement {
            origin: [-2, -8],
            size: [11, 9],
            scale: bits(0.016),
            phase,
        })
    );
    let scale = Err(InvalidInput("invalid raster scale"));
    assert_eq!(glyph.placement(bits(0.0), bits(1.0), phase, across, down), scale);
    assert_eq!(
        glyph.placement(bits(1.0e-40), bits(f32::INFINITY), phase, across, down),
        scale
    );
    let outside = Err(InvalidInput("glyph raster bounds exceed supported range"));
    for wrong in [
        PixelSpan { low: None, high: Some(1) },
        PixelSpan { low: Some(0), high: None },
        PixelSpan { low: Some(-1_048_577), high: Some(1) },
        PixelSpan { low: Some(0), high: Some(1_048_577) },
        PixelSpan { low: Some(4), high: Some(4) },
    ] {
        assert_eq!(glyph.placement(bits(1.0), bits(1.0), phase, across, wrong), outside);
        assert_eq!(glyph.placement(bits(1.0), bits(1.0), phase, wrong, down), outside);
    }
}

#[test]
fn jobs_stay_in_the_atlas_and_the_buffer() {
    let placement = RasterPlacement {
        origin: [-2, -8],
        size: [11, 9],
        scale: bits(1.0),
        phase: [bits(0.0), bits(0.0)],
    };
    let mapping = [bits(1.0), bits(-2.0), bits(-8.0), bits(0.0)];
    assert_eq!(
        placement.job([53, 55], [64, 64], 3, 4, 7, mapping),
        Ok(RasterJob {
            rect: [53, 55, 11, 9],
            segment_range: [3, 4, 7, 0],
            mapping,
        })
    );
    let outside = Err(InvalidInput("atlas rectangle is outside the image"));
    assert_eq!(placement.job([54, 55], [64, 64], 3, 4, 7, mapping), outside);
    assert_eq!(placement.job([53, 65], [64, 64], 3, 4, 7, mapping), outside);
    assert_eq!(placement.job([0, 0], [u32::MAX, 64], 3, 4, 7, mapping), outside);
    let empty = RasterPlacement { size: [0, 9], ..placement };
    assert_eq!(empty.job([0, 0], [64, 64], 3, 4, 7, mapping), outside);
    let range = Err(InvalidInput("curve range is outside the uploaded buffer"));
    assert_eq!(placement.job([0, 0], [64, 64], 4, 4, 7, mapping), range);
    assert_eq!(placement.job([0, 0], [64, 64], 8, 0, 7, mapping), range);
}
