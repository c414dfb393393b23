//! The drawing surface model: positioned draw operations, page
//! placement, rasters, and the sheet configuration.
//!
//! Layout functions never serialize anything; they emit a sequence of
//! `PlacedOp` values that an unverified renderer replays page by page.
//! Coordinates are micrometres from the page's bottom-left corner, Y
//! increasing upward.

use vstd::prelude::*;
use crate::date::Date;

verus! {

/// An opaque-pixel raster, 8-bit RGB, row-major, three bytes per pixel.
#[derive(Debug, Clone, PartialEq)]
pub struct Raster {
    pub width: u32,
    pub height: u32,
    pub pixels: Vec<u8>,
}

/// A raster with per-pixel opacity, 8-bit RGBA, row-major, four bytes per
/// pixel; the decoded form a logo arrives in.
#[derive(Debug, Clone, PartialEq)]
pub struct RgbaRaster {
    pub width: u32,
    pub height: u32,
    pub pixels: Vec<u8>,
}

/// The mathematical shadow of a raster.
pub ghost struct RasterV {
    pub width: int,
    pub height: int,
    pub pixels: Seq<u8>,
}

impl DeepView for Raster {
    type V = RasterV;

    open spec fn deep_view(&self) -> RasterV {
        RasterV { width: self.width as int, height: self.height as int, pixels: self.pixels@ }
    }
}

impl DeepView for RgbaRaster {
    type V = RasterV;

    open spec fn deep_view(&self) -> RasterV {
        RasterV { width: self.width as int, height: self.height as int, pixels: self.pixels@ }
    }
}

/// One drawing primitive against the abstract surface.
#[derive(Debug, Clone, PartialEq)]
#[allow(inconsistent_fields)]
pub enum DrawOp {
    /// Place text at a position; `size` is the font size in points,
    /// `bold` selects the bold face.
    Text { content: String, size: u32, x: i64, y: i64, bold: bool },
    /// A straight stroked segment; `width` is the stroke width in um and
    /// `shade` the gray level in thousandths (0 black, 1000 white).
    Line { x1: i64, y1: i64, x2: i64, y2: i64, width: u32, shade: u32 },
    /// Place a raster scaled to a physical width in um; the renderer
    /// infers the physical height from the raster's aspect ratio and may
    /// smooth the pixels when `smooth` is set (a photograph rather than a
    /// barcode).
    Image { raster: Raster, x: i64, y: i64, width: i64, smooth: bool },
}

/// The mathematical shadow of a draw operation.
pub ghost enum OpV {
    Text { content: Seq<char>, size: int, x: int, y: int, bold: bool },
    Line { x1: int, y1: int, x2: int, y2: int, width: int, shade: int },
    Image { raster: RasterV, x: int, y: int, width: int, smooth: bool },
}

impl DeepView for DrawOp {
    type V = OpV;

    open spec fn deep_view(&self) -> OpV {
        match self {
            DrawOp::Text { content, size, x, y, bold } => OpV::Text {
                content: content@,
                size: *size as int,
                x: *x as int,
                y: *y as int,
                bold: *bold,
            },
            DrawOp::Line { x1, y1, x2, y2, width, shade } => OpV::Line {
                x1: *x1 as int,
                y1: *y1 as int,
                x2: *x2 as int,
                y2: *y2 as int,
                width: *width as int,
                shade: *shade as int,
            },
            DrawOp::Image { raster, x, y, width, smooth } => OpV::Image {
                raster: raster.deep_view(),
                x: *x as int,
                y: *y as int,
                width: *width as int,
                smooth: *smooth,
            },
        }
    }
}

/// A draw operation bound to the page it appears on; pages count from 0.
#[derive(Debug, Clone, PartialEq)]
pub struct PlacedOp {
    pub page: u32,
    pub op: DrawOp,
}

/// The mathematical shadow of a placed operation.
pub ghost struct POpV {
    pub page: int,
    pub op: OpV,
}

impl DeepView for PlacedOp {
    type V = POpV;

    open spec fn deep_view(&self) -> POpV {
        POpV { page: self.page as int, op: self.op.deep_view() }
    }
}

/// Append one operation; the workhorse of every layout function.
pub fn emit(out: &mut Vec<PlacedOp>, page: u32, op: DrawOp)
    ensures
        final(out).deep_view() == old(out).deep_view().push(
            POpV { page: page as int, op: op.deep_view() },
        ),
{
    let ghost op_v = op.deep_view();
    out.push(PlacedOp { page, op });
    proof {
        assert(final(out).deep_view() =~= old(out).deep_view().push(
            POpV { page: page as int, op: op_v },
        ));
    }
}

/// Everything one generation run depends on.  Immutable once constructed;
/// the presence of `roster` selects roster mode over blank mode.
#[derive(Debug, Clone)]
pub struct AttendanceConfig {
    pub class_name: String,
    pub teacher: String,
    pub date: Date,
    pub location: String,
    pub event_id: String,
    pub roster: Option<Vec<String>>,
    pub blank_rows: u32,
    pub mailing_list: bool,
    pub mailing_rows: u32,
    pub logo: Option<RgbaRaster>,
}

/// The mathematical shadow of a configuration.
pub ghost struct CfgV {
    pub class_name: Seq<char>,
    pub teacher: Seq<char>,
    pub date: Date,
    pub location: Seq<char>,
    pub event_id: Seq<char>,
    pub roster: Option<Seq<Seq<char>>>,
    pub blank_rows: u32,
    pub mailing_list: bool,
    pub mailing_rows: u32,
    pub logo: Option<RasterV>,
}

impl DeepView for AttendanceConfig {
    type V = CfgV;

    open spec fn deep_view(&self) -> CfgV {
        CfgV {
            class_name: self.class_name@,
            teacher: self.teacher@,
            date: self.date,
            location: self.location@,
            event_id: self.event_id@,
            roster: self.roster.deep_view(),
            blank_rows: self.blank_rows,
            mailing_list: self.mailing_list,
            mailing_rows: self.mailing_rows,
            logo: self.logo.deep_view(),
        }
    }
}

/// The inputs the layout core assumes: a valid date, positive counts for
/// the sections that use them, and a logo raster whose buffer matches its
/// dimensions.  Callers validate before the core runs.
pub open spec fn config_wf(c: CfgV) -> bool {
    &&& crate::date::date_valid(c.date)
    &&& c.mailing_list ==> c.mailing_rows >= 1
    &&& c.roster is None ==> c.blank_rows >= 1
    &&& c.logo matches Some(l) ==> 1 <= l.width <= 0xffff_ffff && 1 <= l.height <= 0xffff_ffff
        && l.pixels.len() == 4 * l.width * l.height
}

} // verus!
