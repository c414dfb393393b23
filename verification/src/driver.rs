//! Document driver: sequences header, grid and mailing section into one
//! deterministic list of placed draw operations.

use vstd::prelude::*;
use crate::error::AppError;
use crate::geom::{GRID_BOTTOM_GAP_UM, GRID_TOP_Y_UM, MAILING_SECTION_HEIGHT_UM, MARGIN_UM, PAGE_WIDTH_UM};
use crate::grid::{
    blank_grid_ops, plan_tables, roster_grid_ops, spec_plan, spec_roster_grid_ops,
    spec_tables_ops, PlaceV,
};
use crate::header::{header_ops, spec_header_ops, spec_location_ops, spec_logo_ops};
use crate::mailing::{mailing_ops, roster_has_star, spec_has_star, spec_mailing_ops};
use crate::ops::{config_wf, AttendanceConfig, CfgV, OpV, PlacedOp, POpV, RasterV};
use crate::qr::{qr_payload_bytes, qr_raster, qr_raster_of, spec_payload_bytes, spec_qr_rgb};

verus! {

/// The result of one generation: how many pages the document has and the
/// draw operations, in emission order, each bound to its page.
#[derive(Debug, Clone, PartialEq)]
pub struct Layout {
    pub pages: u32,
    pub ops: Vec<PlacedOp>,
}

/// The mathematical shadow of a generated layout.
pub ghost struct LayoutV {
    pub pages: int,
    pub ops: Seq<POpV>,
}

impl DeepView for Layout {
    type V = LayoutV;

    open spec fn deep_view(&self) -> LayoutV {
        LayoutV { pages: self.pages as int, ops: self.ops.deep_view() }
    }
}

/// Height reserved for the mailing section on the first page.
pub open spec fn spec_mailing_h(c: CfgV) -> int {
    if c.mailing_list {
        MAILING_SECTION_HEIGHT_UM as int
    } else {
        0
    }
}

/// How many pages a blank-mode plan spans.
pub open spec fn spec_blank_pages(plan: Seq<PlaceV>) -> int {
    if plan.len() == 0 {
        1
    } else {
        plan[plan.len() - 1].page + 1
    }
}

/// The blank-mode plan a configuration produces.
pub open spec fn spec_config_plan(c: CfgV) -> Seq<PlaceV> {
    spec_plan(
        c.blank_rows as int,
        0,
        GRID_TOP_Y_UM as int,
        GRID_TOP_Y_UM as int - MARGIN_UM as int - spec_mailing_h(c) - GRID_BOTTOM_GAP_UM as int,
        0,
    )
}

/// The whole document for a configuration, given the QR raster: header,
/// then the grid in the mode the roster selects, then the mailing
/// section, which always lands on the first page.
pub open spec fn spec_generate_ok(c: CfgV, qr: RasterV) -> LayoutV {
    let cw = PAGE_WIDTH_UM as int - 2 * MARGIN_UM as int;
    let mh = spec_mailing_h(c);
    let header = spec_header_ops(c, qr);
    let grid = match c.roster {
        Some(names) => spec_roster_grid_ops(names, mh),
        None => spec_tables_ops(spec_config_plan(c), 0, cw),
    };
    let pages = match c.roster {
        Some(names) => 1,
        None => spec_blank_pages(spec_config_plan(c)),
    };
    let mail = if c.mailing_list {
        spec_mailing_ops(c.mailing_rows as int, cw, spec_has_star(c.roster))
    } else {
        Seq::empty()
    };
    LayoutV { pages, ops: header + grid + mail }
}

/// What one generation run yields: nothing when the QR payload exceeds
/// the barcode's capacity, else the full layout.
pub open spec fn spec_generate(c: CfgV) -> Option<LayoutV> {
    match qr_raster_of(spec_payload_bytes(c)) {
        None => None,
        Some(g) => Some(spec_generate_ok(c, spec_qr_rgb(g.0, g.1))),
    }
}

/// Generate the attendance document for a validated configuration.
/// Succeeds exactly when the QR payload fits the barcode; the one error
/// the layout core raises itself is `QrError`.
pub fn generate(config: &AttendanceConfig) -> (r: Result<Layout, AppError>)
    requires
        config_wf(config.deep_view()),
    ensures
        r is Ok <==> spec_generate(config.deep_view()) is Some,
        r matches Ok(l) ==> Some(l.deep_view()) == spec_generate(config.deep_view()),
        r is Err ==> r->Err_0 is QrError,
{
    let ghost c = config.deep_view();
    let payload = qr_payload_bytes(config);
    let qr = match qr_raster(&payload) {
        Ok(q) => q,
        Err(e) => {
            return Err(e);
        },
    };
    let ghost qv = qr.deep_view();
    let cw: i64 = PAGE_WIDTH_UM - 2 * MARGIN_UM;
    let mailing_h: i64 = if config.mailing_list {
        MAILING_SECTION_HEIGHT_UM
    } else {
        0
    };
    let mut ops: Vec<PlacedOp> = Vec::new();
    proof {
        assert(ops.deep_view() =~= Seq::<POpV>::empty());
    }
    let _ = header_ops(&mut ops, config, qr);
    let ghost header = spec_header_ops(c, qv);
    let pages: u32;
    match &config.roster {
        Some(roster) => {
            proof {
                assert(c.roster == Some(roster.deep_view()));
            }
            let _ = roster_grid_ops(&mut ops, roster, mailing_h);
            pages = 1;
        },
        None => {
            proof {
                assert(c.roster is None);
            }
            let plan = plan_tables(config.blank_rows, mailing_h);
            blank_grid_ops(&mut ops, &plan, cw);
            if plan.len() == 0 {
                pages = 1;
            } else {
                let last = plan.len() - 1;
                pages = plan[last].page + 1;
            }
            proof {
                assert(plan.deep_view() == spec_config_plan(c));
                assert(pages as int == spec_blank_pages(spec_config_plan(c)));
            }
        },
    }
    let ghost grid_ops = match c.roster {
        Some(names) => spec_roster_grid_ops(names, spec_mailing_h(c)),
        None => spec_tables_ops(spec_config_plan(c), 0, cw as int),
    };
    proof {
        assert(ops.deep_view() =~= Seq::<POpV>::empty() + header + grid_ops);
    }
    if config.mailing_list {
        let star = roster_has_star(&config.roster);
        proof {
            assert(config.roster.deep_view() == c.roster);
        }
        mailing_ops(&mut ops, config.mailing_rows, cw, star);
    }
    let layout = Layout { pages, ops };
    proof {
        let expected = spec_generate_ok(c, qv);
        assert(layout.deep_view().ops =~= expected.ops);
        assert(layout.deep_view().pages == expected.pages);
        assert(layout.deep_view() == expected);
    }
    Ok(layout)
}

/// Generation is a pure function of the configuration: two runs whose
/// configurations agree field for field (the same class name, teacher,
/// date, location, event identifier, roster, row counts, mailing choice
/// and logo pixels) lay out identical geometry, page count included.
/// Only the opaque event identifier and the logo bytes handed in can
/// distinguish two documents.
pub proof fn lemma_generation_deterministic(c1: CfgV, c2: CfgV)
    requires
        c1.class_name == c2.class_name,
        c1.teacher == c2.teacher,
        c1.date == c2.date,
        c1.location == c2.location,
        c1.event_id == c2.event_id,
        c1.roster == c2.roster,
        c1.blank_rows == c2.blank_rows,
        c1.mailing_list == c2.mailing_list,
        c1.mailing_rows == c2.mailing_rows,
        c1.logo == c2.logo,
    ensures
        spec_generate(c1) == spec_generate(c2),
{
    assert(c1 == c2);
}


/// A placed operation with the payloads that may legitimately differ
/// between two runs erased: text content and raster pixels (dimensions
/// included) go; page, position, font size and face, stroke width and
/// shade, physical image width and smoothing stay.  The QR block draws
/// as a fixed square whatever its pixel count, and a logo's drawn height
/// follows from its pixel dimensions, which the purity lemma pins.
pub open spec fn op_geometry(p: POpV) -> POpV {
    POpV {
        page: p.page,
        op: match p.op {
            OpV::Text { content, size, x, y, bold } => OpV::Text {
                content: Seq::empty(),
                size,
                x,
                y,
                bold,
            },
            OpV::Line { x1, y1, x2, y2, width, shade } => p.op,
            OpV::Image { raster, x, y, width, smooth } => OpV::Image {
                raster: RasterV { width: 0, height: 0, pixels: Seq::empty() },
                x,
                y,
                width,
                smooth,
            },
        },
    }
}

/// The geometry of a whole operation sequence.
pub open spec fn ops_geometry(s: Seq<POpV>) -> Seq<POpV> {
    s.map(|_i: int, p: POpV| op_geometry(p))
}

/// Geometry distributes over concatenation.
pub proof fn lemma_ops_geometry_concat(a: Seq<POpV>, b: Seq<POpV>)
    ensures
        ops_geometry(a + b) == ops_geometry(a) + ops_geometry(b),
{
    assert forall|k: int| 0 <= k < (a + b).len() implies #[trigger] ops_geometry(a + b)[k] == (
    ops_geometry(a) + ops_geometry(b))[k] by {
        if k < a.len() {
            assert((a + b)[k] == a[k]);
        } else {
            assert((a + b)[k] == b[k - a.len()]);
        }
    }
    assert(ops_geometry(a + b) =~= ops_geometry(a) + ops_geometry(b));
}

/// Layout geometry is a pure function of the configuration apart from
/// the opaque event identifier and the embedded image bytes: two runs
/// whose configurations agree on everything else (logos may differ in
/// pixels but not in pixel dimensions) that both encode their barcode
/// place every operation at the same page and position with the same
/// sizes, differing only in text content derived from the event
/// identifier and in raster pixels.
pub proof fn lemma_layout_geometry_pure(c1: CfgV, c2: CfgV)
    requires
        c1.class_name == c2.class_name,
        c1.teacher == c2.teacher,
        c1.date == c2.date,
        c1.location == c2.location,
        c1.roster == c2.roster,
        c1.blank_rows == c2.blank_rows,
        c1.mailing_list == c2.mailing_list,
        c1.mailing_rows == c2.mailing_rows,
        c1.logo is Some <==> c2.logo is Some,
        c1.logo matches Some(l1) ==> (c2.logo matches Some(l2) && l1.width == l2.width
            && l1.height == l2.height),
    ensures
        spec_generate(c1) is Some && spec_generate(c2) is Some ==> spec_generate(
            c1,
        )->Some_0.pages == spec_generate(c2)->Some_0.pages && ops_geometry(
            spec_generate(c1)->Some_0.ops,
        ) == ops_geometry(spec_generate(c2)->Some_0.ops),
{
    if spec_generate(c1) is Some && spec_generate(c2) is Some {
        let g1 = qr_raster_of(spec_payload_bytes(c1))->Some_0;
        let g2 = qr_raster_of(spec_payload_bytes(c2))->Some_0;
        let q1 = spec_qr_rgb(g1.0, g1.1);
        let q2 = spec_qr_rgb(g2.0, g2.1);
        let l1 = spec_generate_ok(c1, q1);
        let l2 = spec_generate_ok(c2, q2);
        let cw = PAGE_WIDTH_UM as int - 2 * MARGIN_UM as int;
        let mh = spec_mailing_h(c1);

        // The grid and mailing segments depend only on shared fields.
        let grid1 = match c1.roster {
            Some(names) => crate::grid::spec_roster_grid_ops(names, mh),
            None => spec_tables_ops(spec_config_plan(c1), 0, cw),
        };
        let grid2 = match c2.roster {
            Some(names) => crate::grid::spec_roster_grid_ops(names, mh),
            None => spec_tables_ops(spec_config_plan(c2), 0, cw),
        };
        assert(spec_config_plan(c1) == spec_config_plan(c2));
        assert(grid1 == grid2);
        let mail1 = if c1.mailing_list {
            spec_mailing_ops(c1.mailing_rows as int, cw, spec_has_star(c1.roster))
        } else {
            Seq::<POpV>::empty()
        };
        assert(l1.pages == l2.pages);

        // The header differs only in erased payloads: the QR raster, the
        // logo pixels and the identifier caption's text.
        let h1 = spec_header_ops(c1, q1);
        let h2 = spec_header_ops(c2, q2);
        assert(spec_location_ops(c1) == spec_location_ops(c2));
        assert(ops_geometry(spec_logo_ops(c1)) =~= ops_geometry(
            spec_logo_ops(c2),
        ));
        assert(h1.len() == h2.len());
        assert forall|k: int| 0 <= k < h1.len() implies #[trigger] ops_geometry(h1)[k]
            == ops_geometry(h2)[k] by {
            let base = 5 + spec_location_ops(c1).len();
            if k < 5 {
            } else if k < base {
                assert(h1[k] == spec_location_ops(c1)[k - 5]);
                assert(h2[k] == spec_location_ops(c2)[k - 5]);
            } else if k < base + spec_logo_ops(c1).len() {
                assert(h1[k] == spec_logo_ops(c1)[k - base]);
                assert(h2[k] == spec_logo_ops(c2)[k - base]);
                assert(ops_geometry(spec_logo_ops(c1))[k - base] == op_geometry(
                    spec_logo_ops(c1)[k - base],
                ));
            } else {
                assert(h1[k] == h1[h1.len() - 1]);
            }
        }
        assert(ops_geometry(h1) =~= ops_geometry(h2));

        lemma_ops_geometry_concat(h1, grid1);
        lemma_ops_geometry_concat(h1 + grid1, mail1);
        lemma_ops_geometry_concat(h2, grid2);
        lemma_ops_geometry_concat(h2 + grid2, mail1);
        assert(l1.ops == h1 + grid1 + mail1);
        assert(l2.ops == h2 + grid2 + mail1);
        assert(ops_geometry(l1.ops) =~= ops_geometry(l2.ops));
    }
}

} // verus!
