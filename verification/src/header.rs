//! Header layout: QR block, title and metadata text, optional logo and
//! the event-identifier caption, all within the top band of page one.

use vstd::prelude::*;
use vstd::string::StringExecFns;
use crate::date::{format_date_display, spec_date_display};
use crate::geom::{
    fit_box, spec_fit_box, GRID_TOP_Y_UM, HEADER_FONT_SIZE, MARGIN_UM, NORMAL_FONT_SIZE,
    PAGE_HEIGHT_UM, PAGE_WIDTH_UM, QR_SIZE_UM, SMALL_FONT_SIZE, TITLE_FONT_SIZE,
};
use crate::logo::{flatten_logo, spec_flatten_white};
use crate::ops::{emit, AttendanceConfig, CfgV, DrawOp, OpV, PlacedOp, POpV, Raster, RasterV};

verus! {

/// Maximum size of the logo box in the top-right corner, um.
pub const LOGO_MAX_WIDTH_UM: i64 = 50000;
pub const LOGO_MAX_HEIGHT_UM: i64 = 30000;

/// The optional location line.
pub open spec fn spec_location_ops(c: CfgV) -> Seq<POpV> {
    if c.location.len() > 0 {
        seq![
            POpV {
                page: 0,
                op: OpV::Text {
                    content: "Location: "@ + c.location,
                    size: NORMAL_FONT_SIZE as int,
                    x: MARGIN_UM + QR_SIZE_UM + 8000,
                    y: PAGE_HEIGHT_UM - MARGIN_UM - 31000,
                    bold: false,
                },
            },
        ]
    } else {
        Seq::empty()
    }
}

/// The optional logo, flattened against white and fitted into its box,
/// right-aligned against the content edge and top-aligned with the
/// header.
pub open spec fn spec_logo_ops(c: CfgV) -> Seq<POpV> {
    match c.logo {
        Some(l) => {
            let fit = spec_fit_box(
                l.width,
                l.height,
                LOGO_MAX_WIDTH_UM as int,
                LOGO_MAX_HEIGHT_UM as int,
            );
            seq![
                POpV {
                    page: 0,
                    op: OpV::Image {
                        raster: RasterV {
                            width: l.width,
                            height: l.height,
                            pixels: spec_flatten_white(l.pixels, l.width * l.height),
                        },
                        x: PAGE_WIDTH_UM - MARGIN_UM - fit.0,
                        y: PAGE_HEIGHT_UM - MARGIN_UM - fit.1,
                        width: fit.0,
                        smooth: true,
                    },
                },
            ]
        },
        None => Seq::empty(),
    }
}

/// Everything the header band draws: the QR raster at the left margin,
/// the title block to its right, the optional location line, the
/// optional logo, and the right-aligned event identifier caption.
pub open spec fn spec_header_ops(c: CfgV, qr: RasterV) -> Seq<POpV> {
    let sy = PAGE_HEIGHT_UM as int - MARGIN_UM as int;
    let tx = MARGIN_UM + QR_SIZE_UM + 8000;
    seq![
        POpV {
            page: 0,
            op: OpV::Image {
                raster: qr,
                x: MARGIN_UM as int,
                y: sy - QR_SIZE_UM,
                width: QR_SIZE_UM as int,
                smooth: false,
            },
        },
        POpV {
            page: 0,
            op: OpV::Text {
                content: "CLASS ATTENDANCE"@,
                size: TITLE_FONT_SIZE as int,
                x: tx,
                y: sy - 6000,
                bold: true,
            },
        },
        POpV {
            page: 0,
            op: OpV::Text {
                content: c.class_name,
                size: HEADER_FONT_SIZE as int,
                x: tx,
                y: sy - 14000,
                bold: true,
            },
        },
        POpV {
            page: 0,
            op: OpV::Text {
                content: spec_date_display(c.date),
                size: NORMAL_FONT_SIZE as int,
                x: tx,
                y: sy - 20000,
                bold: false,
            },
        },
        POpV {
            page: 0,
            op: OpV::Text {
                content: "Instructor: "@ + c.teacher,
                size: NORMAL_FONT_SIZE as int,
                x: tx,
                y: sy - 26000,
                bold: false,
            },
        },
    ] + spec_location_ops(c) + spec_logo_ops(c) + seq![
        POpV {
            page: 0,
            op: OpV::Text {
                content: "ID: "@ + c.event_id,
                size: SMALL_FONT_SIZE as int,
                x: PAGE_WIDTH_UM - MARGIN_UM - 25000,
                y: sy - QR_SIZE_UM - 2000,
                bold: false,
            },
        },
    ]
}

/// Draw the header band onto the first page; the grid region starts at
/// `GRID_TOP_Y_UM`, just below the QR block plus a fixed spacing.
pub fn header_ops(out: &mut Vec<PlacedOp>, config: &AttendanceConfig, qr: Raster) -> (next_y: i64)
    requires
        crate::ops::config_wf(config.deep_view()),
    ensures
        final(out).deep_view() == old(out).deep_view() + spec_header_ops(
            config.deep_view(),
            qr.deep_view(),
        ),
        next_y == GRID_TOP_Y_UM,
{
    let ghost c = config.deep_view();
    let ghost qv = qr.deep_view();
    let sy: i64 = PAGE_HEIGHT_UM - MARGIN_UM;
    let tx: i64 = MARGIN_UM + QR_SIZE_UM + 8000;
    emit(
        out,
        0,
        DrawOp::Image { raster: qr, x: MARGIN_UM, y: sy - QR_SIZE_UM, width: QR_SIZE_UM, smooth: false },
    );
    emit(
        out,
        0,
        DrawOp::Text {
            content: "CLASS ATTENDANCE".to_owned(),
            size: TITLE_FONT_SIZE,
            x: tx,
            y: sy - 6000,
            bold: true,
        },
    );
    emit(
        out,
        0,
        DrawOp::Text {
            content: config.class_name.clone(),
            size: HEADER_FONT_SIZE,
            x: tx,
            y: sy - 14000,
            bold: true,
        },
    );
    emit(
        out,
        0,
        DrawOp::Text {
            content: format_date_display(config.date),
            size: NORMAL_FONT_SIZE,
            x: tx,
            y: sy - 20000,
            bold: false,
        },
    );
    let mut instructor = "Instructor: ".to_owned();
    instructor.append(config.teacher.as_str());
    emit(
        out,
        0,
        DrawOp::Text { content: instructor, size: NORMAL_FONT_SIZE, x: tx, y: sy - 26000, bold: false },
    );
    if !config.location.as_str().is_empty() {
        let mut location = "Location: ".to_owned();
        location.append(config.location.as_str());
        emit(
            out,
            0,
            DrawOp::Text {
                content: location,
                size: NORMAL_FONT_SIZE,
                x: tx,
                y: sy - 31000,
                bold: false,
            },
        );
    }
    proof {
        assert(out.deep_view() =~= old(out).deep_view() + seq![
            spec_header_ops(c, qv)[0],
            spec_header_ops(c, qv)[1],
            spec_header_ops(c, qv)[2],
            spec_header_ops(c, qv)[3],
            spec_header_ops(c, qv)[4],
        ] + spec_location_ops(c));
    }
    match &config.logo {
        Some(logo) => {
            let flat = flatten_logo(logo);
            let fit = fit_box(logo.width, logo.height, LOGO_MAX_WIDTH_UM, LOGO_MAX_HEIGHT_UM);
            emit(
                out,
                0,
                DrawOp::Image {
                    raster: flat,
                    x: PAGE_WIDTH_UM - MARGIN_UM - fit.0,
                    y: PAGE_HEIGHT_UM - MARGIN_UM - fit.1,
                    width: fit.0,
                    smooth: true,
                },
            );
            proof {
                assert(c.logo == Some(logo.deep_view()));
            }
        },
        None => {
            proof {
                assert(c.logo is None);
            }
        },
    }
    let mut ident = "ID: ".to_owned();
    ident.append(config.event_id.as_str());
    emit(
        out,
        0,
        DrawOp::Text {
            content: ident,
            size: SMALL_FONT_SIZE,
            x: PAGE_WIDTH_UM - MARGIN_UM - 25000,
            y: sy - QR_SIZE_UM - 2000,
            bold: false,
        },
    );
    proof {
        assert(final(out).deep_view() =~= old(out).deep_view() + spec_header_ops(c, qv));
    }
    GRID_TOP_Y_UM
}

} // verus!
