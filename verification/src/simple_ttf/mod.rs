//! Minimal, bounds-checked TrueType outline parser.
//!
//! The parser implements the tables needed by a basic text renderer:
//!
//! ```text
//! Unicode code point -> cmap -> glyph ID -> loca -> glyf outline
//!                                      \-> hmtx horizontal metrics
//! ```
//!
//! It supports Unicode `cmap` formats 4 and 12, both `loca` encodings, simple
//! and composite `glyf` outlines, and horizontal metrics from `hhea`/`hmtx`.
//! Coordinates and metrics are in font units. Multiply them by
//! `pixel_height / units_per_em` before rendering at a desired pixel height.
//!
//! Composite components are flattened: a loaded glyph holds the points of its
//! simple parts and the steps that transform and move them, nested transforms and
//! attachment by explicit contour point included. Phantom-point attachment is
//! rejected as unsupported. Pixel-grid rounding and hint instructions are not
//! executed.
//!
//! CFF outlines, font variations, hint execution, kerning, shaping, and
//! rasterization are outside this module's scope.

pub mod cmap;
pub mod component;
pub mod decoded;
pub mod error;
pub mod font;
pub mod glyph;
pub mod path;
pub mod reader;
pub mod stored;
pub mod stored_components;
pub mod stored_maps;
pub mod stored_tables;
pub mod tables;

pub use component::{ComponentStep, ComponentTransform, PointRef, StepPlacement};
pub use error::{ErrorKind, FontError, RequiredTable};
pub use font::{GlyphLoadBudget, TTFParser};
pub use glyph::{Contour, Glyph, GlyphBounds, GlyphPoint};
pub use path::{PathCommand, PathPoint};
pub use tables::{HeadData, HheaTable, HorizontalMetrics, MaxpTable};
