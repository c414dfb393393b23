//! Grid layout: the checklist rows of roster mode and the atomic
//! four-seat table groups of blank mode.

use vstd::prelude::*;
use vstd::string::StringExecFns;
use crate::geom::{
    GRID_BOTTOM_GAP_UM, GRID_TOP_Y_UM, MAILING_SECTION_HEIGHT_UM, MARGIN_UM, MAX_ROW_HEIGHT_UM,
    NAME_COL_PERCENT, NORMAL_FONT_SIZE, PAGE_HEIGHT_UM, SEAT_COL_PERCENT, SMALL_FONT_SIZE,
    TABLE_COL_PERCENT, TABLE_HEIGHT_UM, TABLE_SEAT_ROW_HEIGHT_UM,
};
use crate::ops::{emit, DrawOp, OpV, PlacedOp, POpV};
use crate::textfmt::{bytes_to_chars, dec_bytes, dec_string};

verus! {

/// Coordinates every emitter works within: far beyond the page, yet far
/// from the integer limits.
pub open spec fn coord_ok(v: int) -> bool {
    -2_000_000 <= v <= 2_000_000
}

/// The slightly wider range a derived coordinate (a text baseline, a
/// checkbox corner) can reach from an in-range input.
pub open spec fn coord_wide(v: int) -> bool {
    -3_000_000 <= v <= 3_000_000
}

/// Vertical centre line for text in a row of height `rh` whose top edge
/// is at `y`.
pub open spec fn spec_text_y(y: int, rh: int) -> int {
    y - rh / 2 - 1500
}

/// The four strokes of a checkbox square with corner `(x, y)` and side
/// `size`.
pub open spec fn spec_checkbox_ops(page: int, x: int, y: int, size: int) -> Seq<POpV> {
    seq![
        POpV { page, op: OpV::Line { x1: x, y1: y, x2: x + size, y2: y, width: 400, shade: 0 } },
        POpV {
            page,
            op: OpV::Line { x1: x + size, y1: y, x2: x + size, y2: y + size, width: 400, shade: 0 },
        },
        POpV {
            page,
            op: OpV::Line { x1: x + size, y1: y + size, x2: x, y2: y + size, width: 400, shade: 0 },
        },
        POpV { page, op: OpV::Line { x1: x, y1: y + size, x2: x, y2: y, width: 400, shade: 0 } },
    ]
}

/// Draw an empty checkbox square.
pub fn checkbox_ops(out: &mut Vec<PlacedOp>, page: u32, x: i64, y: i64, size: i64)
    requires
        coord_wide(x as int),
        coord_wide(y as int),
        0 <= size <= 100000,
    ensures
        final(out).deep_view() == old(out).deep_view() + spec_checkbox_ops(
            page as int,
            x as int,
            y as int,
            size as int,
        ),
{
    emit(out, page, DrawOp::Line { x1: x, y1: y, x2: x + size, y2: y, width: 400, shade: 0 });
    emit(
        out,
        page,
        DrawOp::Line { x1: x + size, y1: y, x2: x + size, y2: y + size, width: 400, shade: 0 },
    );
    emit(
        out,
        page,
        DrawOp::Line { x1: x + size, y1: y + size, x2: x, y2: y + size, width: 400, shade: 0 },
    );
    emit(out, page, DrawOp::Line { x1: x, y1: y + size, x2: x, y2: y, width: 400, shade: 0 });
    proof {
        assert(final(out).deep_view() =~= old(out).deep_view() + spec_checkbox_ops(
            page as int,
            x as int,
            y as int,
            size as int,
        ));
    }
}

/// The column headers and the bottom border of one roster column's
/// heading row.
pub open spec fn spec_grid_header_ops(
    page: int,
    y: int,
    name_x: int,
    table_x: int,
    seat_x: int,
    seat_w: int,
    rh: int,
) -> Seq<POpV> {
    let ty = spec_text_y(y, rh);
    seq![
        POpV {
            page,
            op: OpV::Text {
                content: "NAME"@,
                size: NORMAL_FONT_SIZE as int,
                x: name_x + 2000,
                y: ty,
                bold: true,
            },
        },
        POpV {
            page,
            op: OpV::Text {
                content: "TABLE"@,
                size: SMALL_FONT_SIZE as int,
                x: table_x + 2000,
                y: ty,
                bold: true,
            },
        },
        POpV {
            page,
            op: OpV::Text {
                content: "SEAT"@,
                size: SMALL_FONT_SIZE as int,
                x: seat_x + 2000,
                y: ty,
                bold: true,
            },
        },
        POpV {
            page,
            op: OpV::Line {
                x1: name_x,
                y1: y - rh,
                x2: seat_x + seat_w,
                y2: y - rh,
                width: 500,
                shade: 0,
            },
        },
    ]
}

pub fn grid_header_ops(
    out: &mut Vec<PlacedOp>,
    page: u32,
    y: i64,
    name_x: i64,
    table_x: i64,
    seat_x: i64,
    seat_w: i64,
    rh: i64,
)
    requires
        coord_ok(y as int),
        coord_ok(name_x as int),
        coord_ok(table_x as int),
        coord_ok(seat_x as int),
        0 <= seat_w <= 1000000,
        0 <= rh <= 100000,
    ensures
        final(out).deep_view() == old(out).deep_view() + spec_grid_header_ops(
            page as int,
            y as int,
            name_x as int,
            table_x as int,
            seat_x as int,
            seat_w as int,
            rh as int,
        ),
{
    let ty: i64 = y - rh / 2 - 1500;
    emit(
        out,
        page,
        DrawOp::Text {
            content: "NAME".to_owned(),
            size: NORMAL_FONT_SIZE,
            x: name_x + 2000,
            y: ty,
            bold: true,
        },
    );
    emit(
        out,
        page,
        DrawOp::Text {
            content: "TABLE".to_owned(),
            size: SMALL_FONT_SIZE,
            x: table_x + 2000,
            y: ty,
            bold: true,
        },
    );
    emit(
        out,
        page,
        DrawOp::Text {
            content: "SEAT".to_owned(),
            size: SMALL_FONT_SIZE,
            x: seat_x + 2000,
            y: ty,
            bold: true,
        },
    );
    emit(
        out,
        page,
        DrawOp::Line { x1: name_x, y1: y - rh, x2: seat_x + seat_w, y2: y - rh, width: 500, shade: 0 },
    );
    proof {
        assert(final(out).deep_view() =~= old(out).deep_view() + spec_grid_header_ops(
            page as int,
            y as int,
            name_x as int,
            table_x as int,
            seat_x as int,
            seat_w as int,
            rh as int,
        ));
    }
}

/// One roster checklist row: checkbox, attendee name, a blank table
/// line, the seat-choice caption and a light separator.
pub open spec fn spec_roster_row_ops(
    page: int,
    y: int,
    name_x: int,
    table_x: int,
    seat_x: int,
    table_w: int,
    seat_w: int,
    rh: int,
    name: Seq<char>,
) -> Seq<POpV> {
    let ty = spec_text_y(y, rh);
    spec_checkbox_ops(page, name_x + 1000, ty - 500, 3000) + seq![
        POpV {
            page,
            op: OpV::Text {
                content: name,
                size: NORMAL_FONT_SIZE as int,
                x: name_x + 6000,
                y: ty,
                bold: false,
            },
        },
        POpV {
            page,
            op: OpV::Line {
                x1: table_x + 2000,
                y1: ty - 500,
                x2: table_x + table_w - 1000,
                y2: ty - 500,
                width: 400,
                shade: 0,
            },
        },
        POpV {
            page,
            op: OpV::Text {
                content: "N  S  E  W"@,
                size: NORMAL_FONT_SIZE as int,
                x: seat_x + 1000,
                y: ty,
                bold: false,
            },
        },
        POpV {
            page,
            op: OpV::Line {
                x1: name_x,
                y1: y - rh,
                x2: seat_x + seat_w,
                y2: y - rh,
                width: 300,
                shade: 800,
            },
        },
    ]
}

pub fn roster_row_ops(
    out: &mut Vec<PlacedOp>,
    page: u32,
    y: i64,
    name_x: i64,
    table_x: i64,
    seat_x: i64,
    table_w: i64,
    seat_w: i64,
    rh: i64,
    name: &String,
)
    requires
        coord_ok(y as int),
        coord_ok(name_x as int),
        coord_ok(table_x as int),
        coord_ok(seat_x as int),
        0 <= table_w <= 1000000,
        0 <= seat_w <= 1000000,
        0 <= rh <= 100000,
    ensures
        final(out).deep_view() == old(out).deep_view() + spec_roster_row_ops(
            page as int,
            y as int,
            name_x as int,
            table_x as int,
            seat_x as int,
            table_w as int,
            seat_w as int,
            rh as int,
            name@,
        ),
{
    let ty: i64 = y - rh / 2 - 1500;
    checkbox_ops(out, page, name_x + 1000, ty - 500, 3000);
    emit(
        out,
        page,
        DrawOp::Text {
            content: name.clone(),
            size: NORMAL_FONT_SIZE,
            x: name_x + 6000,
            y: ty,
            bold: false,
        },
    );
    emit(
        out,
        page,
        DrawOp::Line {
            x1: table_x + 2000,
            y1: ty - 500,
            x2: table_x + table_w - 1000,
            y2: ty - 500,
            width: 400,
            shade: 0,
        },
    );
    emit(
        out,
        page,
        DrawOp::Text {
            content: "N  S  E  W".to_owned(),
            size: NORMAL_FONT_SIZE,
            x: seat_x + 1000,
            y: ty,
            bold: false,
        },
    );
    emit(
        out,
        page,
        DrawOp::Line { x1: name_x, y1: y - rh, x2: seat_x + seat_w, y2: y - rh, width: 300, shade: 800 },
    );
    proof {
        assert(final(out).deep_view() =~= old(out).deep_view() + spec_roster_row_ops(
            page as int,
            y as int,
            name_x as int,
            table_x as int,
            seat_x as int,
            table_w as int,
            seat_w as int,
            rh as int,
            name@,
        ));
    }
}

/// One walk-in row: the seat-choice caption and a light separator; the
/// row-number prefix stays suppressed in this rendering path.
pub open spec fn spec_blank_row_ops(
    page: int,
    y: int,
    name_x: int,
    seat_x: int,
    seat_w: int,
    rh: int,
) -> Seq<POpV> {
    let ty = spec_text_y(y, rh);
    seq![
        POpV {
            page,
            op: OpV::Text {
                content: "N  S  E  W"@,
                size: NORMAL_FONT_SIZE as int,
                x: seat_x + 1000,
                y: ty,
                bold: false,
            },
        },
        POpV {
            page,
            op: OpV::Line {
                x1: name_x,
                y1: y - rh,
                x2: seat_x + seat_w,
                y2: y - rh,
                width: 300,
                shade: 800,
            },
        },
    ]
}

pub fn blank_row_ops(
    out: &mut Vec<PlacedOp>,
    page: u32,
    y: i64,
    name_x: i64,
    seat_x: i64,
    seat_w: i64,
    rh: i64,
)
    requires
        coord_ok(y as int),
        coord_ok(name_x as int),
        coord_ok(seat_x as int),
        0 <= seat_w <= 1000000,
        0 <= rh <= 100000,
    ensures
        final(out).deep_view() == old(out).deep_view() + spec_blank_row_ops(
            page as int,
            y as int,
            name_x as int,
            seat_x as int,
            seat_w as int,
            rh as int,
        ),
{
    let ty: i64 = y - rh / 2 - 1500;
    emit(
        out,
        page,
        DrawOp::Text {
            content: "N  S  E  W".to_owned(),
            size: NORMAL_FONT_SIZE,
            x: seat_x + 1000,
            y: ty,
            bold: false,
        },
    );
    emit(
        out,
        page,
        DrawOp::Line { x1: name_x, y1: y - rh, x2: seat_x + seat_w, y2: y - rh, width: 300, shade: 800 },
    );
    proof {
        assert(final(out).deep_view() =~= old(out).deep_view() + spec_blank_row_ops(
            page as int,
            y as int,
            name_x as int,
            seat_x as int,
            seat_w as int,
            rh as int,
        ));
    }
}

/// The name of a seat within a table: 0 North, 1 South, 2 East, 3 West.
pub open spec fn spec_seat_name(s: int) -> Seq<char> {
    if s == 0 {
        "North"@
    } else if s == 1 {
        "South"@
    } else if s == 2 {
        "East"@
    } else {
        "West"@
    }
}

pub fn seat_name(s: u32) -> (r: &'static str)
    requires
        s <= 3,
    ensures
        r@ == spec_seat_name(s as int),
{
    if s == 0 {
        "North"
    } else if s == 1 {
        "South"
    } else if s == 2 {
        "East"
    } else {
        "West"
    }
}

/// One seat row of a blank-mode table: the table label on the first
/// (North) seat only, the seat name, and a separator that spans the full
/// content width on the last (West) seat to mark the table boundary.
pub open spec fn spec_seat_row_ops(
    page: int,
    y: int,
    content_w: int,
    table_num: int,
    s: int,
) -> Seq<POpV> {
    let rh = TABLE_SEAT_ROW_HEIGHT_UM as int;
    let ty = spec_text_y(y, rh);
    let seat_col = MARGIN_UM + 22000;
    let label: Seq<POpV> = if s == 0 {
        seq![
            POpV {
                page,
                op: OpV::Text {
                    content: "Table "@ + bytes_to_chars(dec_bytes(table_num)),
                    size: NORMAL_FONT_SIZE as int,
                    x: MARGIN_UM + 2000,
                    y: ty,
                    bold: false,
                },
            },
        ]
    } else {
        Seq::empty()
    };
    let line_start = if s == 3 {
        MARGIN_UM as int
    } else {
        seat_col
    };
    label + seq![
        POpV {
            page,
            op: OpV::Text {
                content: spec_seat_name(s),
                size: NORMAL_FONT_SIZE as int,
                x: seat_col + 2000,
                y: ty,
                bold: false,
            },
        },
        POpV {
            page,
            op: OpV::Line {
                x1: line_start,
                y1: y - rh,
                x2: MARGIN_UM + content_w,
                y2: y - rh,
                width: 300,
                shade: 700,
            },
        },
    ]
}

pub fn seat_row_ops(
    out: &mut Vec<PlacedOp>,
    page: u32,
    y: i64,
    content_w: i64,
    table_num: u32,
    s: u32,
)
    requires
        coord_ok(y as int),
        0 <= content_w <= 1000000,
        s <= 3,
        table_num >= 1,
    ensures
        final(out).deep_view() == old(out).deep_view() + spec_seat_row_ops(
            page as int,
            y as int,
            content_w as int,
            table_num as int,
            s as int,
        ),
{
    let ty: i64 = y - TABLE_SEAT_ROW_HEIGHT_UM / 2 - 1500;
    let seat_col: i64 = MARGIN_UM + 22000;
    if s == 0 {
        let mut label = "Table ".to_owned();
        let num_str = dec_string(table_num as u64);
        label.append(num_str.as_str());
        emit(
            out,
            page,
            DrawOp::Text {
                content: label,
                size: NORMAL_FONT_SIZE,
                x: MARGIN_UM + 2000,
                y: ty,
                bold: false,
            },
        );
    }
    let line_start: i64 = if s == 3 {
        MARGIN_UM
    } else {
        seat_col
    };
    emit(
        out,
        page,
        DrawOp::Text {
            content: seat_name(s).to_owned(),
            size: NORMAL_FONT_SIZE,
            x: seat_col + 2000,
            y: ty,
            bold: false,
        },
    );
    emit(
        out,
        page,
        DrawOp::Line {
            x1: line_start,
            y1: y - TABLE_SEAT_ROW_HEIGHT_UM,
            x2: MARGIN_UM + content_w,
            y2: y - TABLE_SEAT_ROW_HEIGHT_UM,
            width: 300,
            shade: 700,
        },
    );
    proof {
        assert(final(out).deep_view() =~= old(out).deep_view() + spec_seat_row_ops(
            page as int,
            y as int,
            content_w as int,
            table_num as int,
            s as int,
        ));
    }
}

/// The checklist rows of one column's names, top to bottom, each one row
/// height below the last.
pub open spec fn spec_name_rows(
    page: int,
    names: Seq<Seq<char>>,
    y: int,
    name_x: int,
    table_x: int,
    seat_x: int,
    table_w: int,
    seat_w: int,
    rh: int,
) -> Seq<POpV>
    decreases names.len(),
{
    if names.len() == 0 {
        Seq::empty()
    } else {
        spec_roster_row_ops(page, y, name_x, table_x, seat_x, table_w, seat_w, rh, names[0])
            + spec_name_rows(
            page,
            names.drop_first(),
            y - rh,
            name_x,
            table_x,
            seat_x,
            table_w,
            seat_w,
            rh,
        )
    }
}

/// `k` trailing walk-in rows below the names.
pub open spec fn spec_walk_in_rows(
    page: int,
    k: nat,
    y: int,
    name_x: int,
    seat_x: int,
    seat_w: int,
    rh: int,
) -> Seq<POpV>
    decreases k,
{
    if k == 0 {
        Seq::empty()
    } else {
        spec_blank_row_ops(page, y, name_x, seat_x, seat_w, rh) + spec_walk_in_rows(
            page,
            (k - 1) as nat,
            y - rh,
            name_x,
            seat_x,
            seat_w,
            rh,
        )
    }
}

/// Everything one roster column draws: a heading row, one checklist row
/// per name, then the fixed number of walk-in rows, all sharing `rh`.
pub open spec fn spec_column_ops(
    names: Seq<Seq<char>>,
    x: int,
    col_w: int,
    start_y: int,
    rh: int,
) -> Seq<POpV> {
    let name_w = col_w * NAME_COL_PERCENT / 100;
    let table_w = col_w * TABLE_COL_PERCENT / 100;
    let seat_w = col_w * SEAT_COL_PERCENT / 100;
    let table_x = x + name_w;
    let seat_x = x + name_w + table_w;
    spec_grid_header_ops(0, start_y, x, table_x, seat_x, seat_w, 6000) + spec_name_rows(
        0,
        names,
        start_y - 6000,
        x,
        table_x,
        seat_x,
        table_w,
        seat_w,
        rh,
    ) + spec_walk_in_rows(
        0,
        4,
        start_y - 6000 - names.len() * rh,
        x,
        seat_x,
        seat_w,
        rh,
    )
}

/// Draw one roster column: the names `roster[lo..hi]` with the shared row
/// height, then the walk-in rows.
#[verifier::loop_isolation(false)]
pub fn roster_column_ops(
    out: &mut Vec<PlacedOp>,
    roster: &Vec<String>,
    lo: usize,
    hi: usize,
    x: i64,
    col_w: i64,
    start_y: i64,
    rh: i64,
)
    requires
        lo <= hi <= roster@.len(),
        0 <= x <= 1000000,
        0 <= col_w <= 1000000,
        0 <= start_y <= 1000000,
        0 <= rh <= MAX_ROW_HEIGHT_UM,
        (hi - lo + 4) * rh <= 1000000,
    ensures
        final(out).deep_view() == old(out).deep_view() + spec_column_ops(
            roster.deep_view().subrange(lo as int, hi as int),
            x as int,
            col_w as int,
            start_y as int,
            rh as int,
        ),
{
    let ghost names = roster.deep_view().subrange(lo as int, hi as int);
    let name_w: i64 = col_w * NAME_COL_PERCENT / 100;
    let table_w: i64 = col_w * TABLE_COL_PERCENT / 100;
    let seat_w: i64 = col_w * SEAT_COL_PERCENT / 100;
    let table_x: i64 = x + name_w;
    let seat_x: i64 = x + name_w + table_w;
    grid_header_ops(out, 0, start_y, x, table_x, seat_x, seat_w, 6000);
    let ghost full = old(out).deep_view() + spec_column_ops(
        names,
        x as int,
        col_w as int,
        start_y as int,
        rh as int,
    );
    let mut y: i64 = start_y - 6000;
    let mut i: usize = lo;
    proof {
        assert(names.subrange(0, names.len() as int) =~= names);
        assert((i as int - lo as int) * (rh as int) == 0) by (nonlinear_arith)
            requires
                i == lo,
        ;
        assert(out.deep_view() + spec_name_rows(
            0,
            names,
            y as int,
            x as int,
            table_x as int,
            seat_x as int,
            table_w as int,
            seat_w as int,
            rh as int,
        ) + spec_walk_in_rows(
            0,
            4,
            y as int - names.len() * rh,
            x as int,
            seat_x as int,
            seat_w as int,
            rh as int,
        ) =~= full);
    }
    while i < hi
        invariant
            lo <= i <= hi,
            y == start_y - 6000 - (i - lo) * rh,
            out.deep_view() + spec_name_rows(
                0,
                names.subrange(i - lo, names.len() as int),
                y as int,
                x as int,
                table_x as int,
                seat_x as int,
                table_w as int,
                seat_w as int,
                rh as int,
            ) + spec_walk_in_rows(
                0,
                4,
                start_y - 6000 - names.len() * rh,
                x as int,
                seat_x as int,
                seat_w as int,
                rh as int,
            ) == full,
        decreases hi - i,
    {
        proof {
            vstd::arithmetic::mul::lemma_mul_inequality(
                i - lo as int,
                hi - lo as int + 4,
                rh as int,
            );
            vstd::arithmetic::mul::lemma_mul_inequality(
                i + 1 - lo as int,
                hi - lo as int + 4,
                rh as int,
            );
            vstd::arithmetic::mul::lemma_mul_nonnegative(i - lo as int, rh as int);
            vstd::arithmetic::mul::lemma_mul_nonnegative(i + 1 - lo as int, rh as int);
            assert((i + 1 - lo as int) * rh == (i - lo as int) * rh + rh) by (nonlinear_arith);
        }
        let ghost tail = names.subrange(i - lo, names.len() as int);
        proof {
            assert(tail[0] == names[i - lo]);
            assert(names[i - lo] == roster.deep_view()[i as int]);
            assert(tail.drop_first() =~= names.subrange(i + 1 - lo, names.len() as int));
        }
        roster_row_ops(out, 0, y, x, table_x, seat_x, table_w, seat_w, rh, &roster[i]);
        proof {
            assert(out.deep_view() + spec_name_rows(
                0,
                names.subrange(i + 1 - lo, names.len() as int),
                y - rh as int,
                x as int,
                table_x as int,
                seat_x as int,
                table_w as int,
                seat_w as int,
                rh as int,
            ) + spec_walk_in_rows(
                0,
                4,
                start_y - 6000 - names.len() * rh,
                x as int,
                seat_x as int,
                seat_w as int,
                rh as int,
            ) =~= full);
        }
        y = y - rh;
        i = i + 1;
    }
    proof {
        assert(names.subrange(hi - lo, names.len() as int) =~= Seq::<Seq<char>>::empty());
        assert(y == start_y - 6000 - names.len() * rh);
    }
    let mut k: u32 = 0;
    proof {
        assert((k as int) * (rh as int) == 0) by (nonlinear_arith)
            requires
                k == 0,
        ;
    }
    while k < 4
        invariant
            0 <= k <= 4,
            y == start_y - 6000 - names.len() * rh - k * rh,
            out.deep_view() + spec_walk_in_rows(
                0,
                (4 - k) as nat,
                y as int,
                x as int,
                seat_x as int,
                seat_w as int,
                rh as int,
            ) == full,
        decreases 4 - k,
    {
        proof {
            vstd::arithmetic::mul::lemma_mul_inequality(
                hi - lo as int,
                hi - lo as int + 4,
                rh as int,
            );
            vstd::arithmetic::mul::lemma_mul_nonnegative(names.len() as int, rh as int);
            vstd::arithmetic::mul::lemma_mul_inequality(k as int, 4, rh as int);
            vstd::arithmetic::mul::lemma_mul_nonnegative(k as int, rh as int);
            assert((hi - lo as int) * rh + 4 * rh == (hi - lo as int + 4) * rh) by (nonlinear_arith);
            assert((k as int + 1) * rh == k as int * rh + rh) by (nonlinear_arith);
        }
        blank_row_ops(out, 0, y, x, seat_x, seat_w, rh);
        proof {
            assert(out.deep_view() + spec_walk_in_rows(
                0,
                (4 - k - 1) as nat,
                y - rh as int,
                x as int,
                seat_x as int,
                seat_w as int,
                rh as int,
            ) =~= full);
        }
        y = y - rh;
        k = k + 1;
    }
    proof {
        assert(spec_walk_in_rows(
            0,
            0,
            y as int,
            x as int,
            seat_x as int,
            seat_w as int,
            rh as int,
        ) =~= Seq::<POpV>::empty());
        assert(out.deep_view() =~= final(out).deep_view());
        assert(final(out).deep_view() =~= full);
    }
}


/// Where one table group lands: its page, the Y of its first seat row,
/// and how many of its four seats are actually drawn.
#[derive(Debug, Clone, Copy, PartialEq, Eq, Structural)]
pub struct TablePlace {
    pub page: u32,
    pub y: i64,
    pub seats: u32,
}

/// The mathematical shadow of a table placement.
pub ghost struct PlaceV {
    pub page: int,
    pub y: int,
    pub seats: int,
}

impl DeepView for TablePlace {
    type V = PlaceV;

    open spec fn deep_view(&self) -> PlaceV {
        PlaceV { page: self.page as int, y: self.y as int, seats: self.seats as int }
    }
}

/// Number of table groups for a blank-row count: four seats per table,
/// the last table possibly partial.
pub open spec fn spec_num_tables(n: int) -> int {
    (n + 3) / 4
}

/// The pagination walk over the remaining tables, from table `t` with the
/// cursor at `y` and `space` left on the current `page`: a table that no
/// longer fits moves whole to the top of a fresh page.
pub open spec fn spec_plan(n: int, t: int, y: int, space: int, page: int) -> Seq<PlaceV>
    decreases spec_num_tables(n) - t,
{
    if t < 0 || t >= spec_num_tables(n) {
        Seq::empty()
    } else {
        let brk = space < TABLE_HEIGHT_UM as int;
        let y1 = if brk {
            PAGE_HEIGHT_UM as int - MARGIN_UM as int
        } else {
            y
        };
        let sp1 = if brk {
            PAGE_HEIGHT_UM as int - 2 * MARGIN_UM as int
        } else {
            space
        };
        let pg1 = if brk {
            page + 1
        } else {
            page
        };
        let seats = if n - 4 * t < 4 {
            n - 4 * t
        } else {
            4
        };
        seq![PlaceV { page: pg1, y: y1, seats }] + spec_plan(
            n,
            t + 1,
            y1 - seats * (TABLE_SEAT_ROW_HEIGHT_UM as int),
            sp1 - seats * (TABLE_SEAT_ROW_HEIGHT_UM as int),
            pg1,
        )
    }
}

/// Lay out the blank-mode tables.  Exactly `ceil(blank_rows / 4)` tables
/// come back; table `i` keeps `min(4, blank_rows - 4 i)` seat rows, all
/// on one page with room above the bottom margin, pages never going
/// backwards; and a table placed on the first page also leaves the
/// mailing reservation and buffer below itself.
#[verifier::loop_isolation(false)]
pub fn plan_tables(blank_rows: u32, mailing_h: i64) -> (r: Vec<TablePlace>)
    requires
        blank_rows >= 1,
        0 <= mailing_h <= MAILING_SECTION_HEIGHT_UM,
    ensures
        r.deep_view() == spec_plan(
            blank_rows as int,
            0,
            GRID_TOP_Y_UM as int,
            GRID_TOP_Y_UM as int - MARGIN_UM as int - mailing_h - GRID_BOTTOM_GAP_UM as int,
            0,
        ),
        r@.len() == spec_num_tables(blank_rows as int),
        forall|i: int|
            0 <= i < r@.len() ==> (#[trigger] r@[i]).seats == (
            if blank_rows as int - 4 * i < 4 {
                blank_rows as int - 4 * i
            } else {
                4
            }),
        forall|i: int| 0 <= i < r@.len() ==> 1 <= (#[trigger] r@[i]).seats <= 4,
        forall|i: int| 0 <= i < r@.len() ==> (#[trigger] r@[i]).y - TABLE_HEIGHT_UM >= MARGIN_UM,
        forall|i: int| 0 <= i < r@.len() ==> (#[trigger] r@[i]).y <= PAGE_HEIGHT_UM - MARGIN_UM,
        forall|i: int|
            0 <= i < r@.len() && (#[trigger] r@[i]).page == 0 ==> r@[i].y - TABLE_HEIGHT_UM
                >= MARGIN_UM + mailing_h + GRID_BOTTOM_GAP_UM,
        forall|i: int, j: int|
            0 <= i <= j < r@.len() ==> (#[trigger] r@[i]).page <= (#[trigger] r@[j]).page,
        forall|i: int| 0 <= i < r@.len() ==> (#[trigger] r@[i]).page <= i,
{
    let ghost n: int = blank_rows as int;
    let n64: u64 = blank_rows as u64;
    let num_tables: u64 = (n64 + 3) / 4;
    let ghost y0: int = GRID_TOP_Y_UM as int;
    let ghost s0: int = GRID_TOP_Y_UM as int - MARGIN_UM as int - mailing_h - GRID_BOTTOM_GAP_UM
        as int;
    let mut r: Vec<TablePlace> = Vec::new();
    let mut y: i64 = GRID_TOP_Y_UM;
    let mut space: i64 = GRID_TOP_Y_UM - MARGIN_UM - mailing_h - GRID_BOTTOM_GAP_UM;
    let mut page: u32 = 0;
    let mut t: u64 = 0;
    proof {
        assert(r.deep_view() =~= Seq::<PlaceV>::empty());
        assert(r.deep_view() + spec_plan(n, 0, y0, s0, 0) =~= spec_plan(n, 0, y0, s0, 0));
    }
    while t < num_tables
        invariant
            t <= num_tables,
            num_tables == spec_num_tables(n),
            r@.len() == t,
            r.deep_view() + spec_plan(n, t as int, y as int, space as int, page as int)
                == spec_plan(n, 0, y0, s0, 0),
            0 <= space,
            y - space == MARGIN_UM + (if page == 0 {
                mailing_h + GRID_BOTTOM_GAP_UM as int
            } else {
                0
            }),
            y <= PAGE_HEIGHT_UM - MARGIN_UM,
            page <= t,
            forall|i: int| 0 <= i < r@.len() ==> (#[trigger] r@[i]).page <= page,
            forall|i: int|
                0 <= i < r@.len() ==> (#[trigger] r@[i]).seats == (
                if n - 4 * i < 4 {
                    n - 4 * i
                } else {
                    4
                }),
            forall|i: int| 0 <= i < r@.len() ==> 1 <= (#[trigger] r@[i]).seats <= 4,
            forall|i: int|
                0 <= i < r@.len() ==> (#[trigger] r@[i]).y - TABLE_HEIGHT_UM >= MARGIN_UM,
            forall|i: int|
                0 <= i < r@.len() ==> (#[trigger] r@[i]).y <= PAGE_HEIGHT_UM - MARGIN_UM,
            forall|i: int|
                0 <= i < r@.len() && (#[trigger] r@[i]).page == 0 ==> r@[i].y - TABLE_HEIGHT_UM
                    >= MARGIN_UM + mailing_h + GRID_BOTTOM_GAP_UM,
            forall|i: int, j: int|
                0 <= i <= j < r@.len() ==> (#[trigger] r@[i]).page <= (#[trigger] r@[j]).page,
            forall|i: int| 0 <= i < r@.len() ==> (#[trigger] r@[i]).page <= i,
            space < TABLE_HEIGHT_UM ==> page < t,
        decreases num_tables - t,
    {
        let ghost y_in: int = y as int;
        let ghost space_in: int = space as int;
        let ghost page_in: int = page as int;
        if space < TABLE_HEIGHT_UM {
            y = PAGE_HEIGHT_UM - MARGIN_UM;
            space = PAGE_HEIGHT_UM - 2 * MARGIN_UM;
            page = page + 1;
        }
        proof {
            vstd::arithmetic::div_mod::lemma_fundamental_div_mod(n + 3, 4);
            assert(4 * (t as int) < n);
        }
        let rem: u64 = n64 - 4 * t;
        let seats: u32 = if rem < 4 {
            rem as u32
        } else {
            4
        };
        let place = TablePlace { page, y, seats };
        let ghost place_v = place.deep_view();
        let ghost prefix = r.deep_view();
        r.push(place);
        proof {
            assert(r.deep_view() =~= prefix.push(place_v));
            assert(spec_plan(n, t as int, y_in, space_in, page_in) == seq![place_v] + spec_plan(
                n,
                t as int + 1,
                y as int - place_v.seats * (TABLE_SEAT_ROW_HEIGHT_UM as int),
                space as int - place_v.seats * (TABLE_SEAT_ROW_HEIGHT_UM as int),
                page as int,
            ));
            assert(prefix.push(place_v) + spec_plan(
                n,
                t as int + 1,
                y as int - place_v.seats * (TABLE_SEAT_ROW_HEIGHT_UM as int),
                space as int - place_v.seats * (TABLE_SEAT_ROW_HEIGHT_UM as int),
                page as int,
            ) =~= prefix + spec_plan(n, t as int, y_in, space_in, page_in));
        }
        y = y - (seats as i64) * TABLE_SEAT_ROW_HEIGHT_UM;
        space = space - (seats as i64) * TABLE_SEAT_ROW_HEIGHT_UM;
        t = t + 1;
    }
    proof {
        assert(spec_plan(n, t as int, y as int, space as int, page as int) =~= Seq::<
            PlaceV,
        >::empty());
        assert(r.deep_view() + Seq::<PlaceV>::empty() =~= r.deep_view());
    }
    r
}

/// The seat rows of one table from seat `s` on, each a fixed row height
/// below the last.
pub open spec fn spec_seat_rows(
    page: int,
    y: int,
    content_w: int,
    num: int,
    s: int,
    seats: int,
) -> Seq<POpV>
    decreases seats - s,
{
    if s < 0 || s >= seats {
        Seq::empty()
    } else {
        spec_seat_row_ops(page, y, content_w, num, s) + spec_seat_rows(
            page,
            y - TABLE_SEAT_ROW_HEIGHT_UM as int,
            content_w,
            num,
            s + 1,
            seats,
        )
    }
}

/// Everything the planned tables from index `i` on draw; table `i` is
/// labelled `i + 1`.
pub open spec fn spec_tables_ops(plan: Seq<PlaceV>, i: int, content_w: int) -> Seq<POpV>
    decreases plan.len() - i,
{
    if i < 0 || i >= plan.len() {
        Seq::empty()
    } else {
        spec_seat_rows(plan[i].page, plan[i].y, content_w, i + 1, 0, plan[i].seats)
            + spec_tables_ops(plan, i + 1, content_w)
    }
}

/// Draw the planned blank-mode tables: North, South, East, West rows per
/// table, in that fixed order, each table entirely on its planned page.
#[verifier::loop_isolation(false)]
pub fn blank_grid_ops(out: &mut Vec<PlacedOp>, plan: &Vec<TablePlace>, content_w: i64)
    requires
        plan@.len() <= 0x4000_0000,
        0 <= content_w <= 1000000,
        forall|i: int| 0 <= i < plan@.len() ==> 1 <= (#[trigger] plan@[i]).seats <= 4,
        forall|i: int| 0 <= i < plan@.len() ==> -1000000 <= (#[trigger] plan@[i]).y <= 1000000,
    ensures
        final(out).deep_view() == old(out).deep_view() + spec_tables_ops(
            plan.deep_view(),
            0,
            content_w as int,
        ),
{
    let ghost pv = plan.deep_view();
    let ghost full = old(out).deep_view() + spec_tables_ops(pv, 0, content_w as int);
    let mut ti: usize = 0;
    proof {
        assert(out.deep_view() + spec_tables_ops(pv, 0, content_w as int) =~= full);
    }
    while ti < plan.len()
        invariant
            ti <= plan@.len(),
            out.deep_view() + spec_tables_ops(pv, ti as int, content_w as int) == full,
        decreases plan@.len() - ti,
    {
        let place = plan[ti];
        let num: u32 = (ti as u32) + 1;
        let seats = place.seats;
        let mut y: i64 = place.y;
        let mut s: u32 = 0;
        proof {
            assert(spec_tables_ops(pv, ti as int, content_w as int) == spec_seat_rows(
                pv[ti as int].page,
                pv[ti as int].y,
                content_w as int,
                ti as int + 1,
                0,
                pv[ti as int].seats,
            ) + spec_tables_ops(pv, ti as int + 1, content_w as int));
        }
        let ghost rest = spec_tables_ops(pv, ti as int + 1, content_w as int);
        proof {
            assert((s as int) * (TABLE_SEAT_ROW_HEIGHT_UM as int) == 0) by (nonlinear_arith)
                requires
                    s == 0,
            ;
            assert(out.deep_view() + spec_seat_rows(
                place.page as int,
                y as int,
                content_w as int,
                num as int,
                s as int,
                seats as int,
            ) + rest =~= full);
        }
        while s < seats
            invariant
                s <= seats,
                seats <= 4,
                y == place.y - s * (TABLE_SEAT_ROW_HEIGHT_UM as int),
                out.deep_view() + spec_seat_rows(
                    place.page as int,
                    y as int,
                    content_w as int,
                    num as int,
                    s as int,
                    seats as int,
                ) + rest == full,
            decreases seats - s,
        {
            proof {
                vstd::arithmetic::mul::lemma_mul_inequality(
                    s as int,
                    4,
                    TABLE_SEAT_ROW_HEIGHT_UM as int,
                );
                vstd::arithmetic::mul::lemma_mul_nonnegative(
                    s as int,
                    TABLE_SEAT_ROW_HEIGHT_UM as int,
                );
                assert((s as int + 1) * (TABLE_SEAT_ROW_HEIGHT_UM as int) == s as int
                    * (TABLE_SEAT_ROW_HEIGHT_UM as int) + TABLE_SEAT_ROW_HEIGHT_UM as int)
                    by (nonlinear_arith);
            }
            seat_row_ops(out, place.page, y, content_w, num, s);
            proof {
                assert(out.deep_view() + spec_seat_rows(
                    place.page as int,
                    y as int - TABLE_SEAT_ROW_HEIGHT_UM as int,
                    content_w as int,
                    num as int,
                    s as int + 1,
                    seats as int,
                ) + rest =~= full);
            }
            y = y - TABLE_SEAT_ROW_HEIGHT_UM;
            s = s + 1;
        }
        proof {
            assert(spec_seat_rows(
                place.page as int,
                y as int,
                content_w as int,
                num as int,
                s as int,
                seats as int,
            ) =~= Seq::<POpV>::empty());
            assert(out.deep_view() + spec_tables_ops(pv, ti as int + 1, content_w as int)
                =~= full);
        }
        ti = ti + 1;
    }
    proof {
        assert(spec_tables_ops(pv, ti as int, content_w as int) =~= Seq::<POpV>::empty());
        assert(final(out).deep_view() + Seq::<POpV>::empty() =~= final(out).deep_view());
    }
}


/// The vertical space the grid may use below the header, before the
/// bottom margin, the mailing reservation and the buffer.
pub open spec fn spec_grid_avail(mailing_h: int) -> int {
    GRID_TOP_Y_UM as int - MARGIN_UM as int - mailing_h - GRID_BOTTOM_GAP_UM as int
}

/// The shared roster row height for `n` names: the taller column is the
/// left one, so its logical row count drives the height.
pub open spec fn spec_roster_rh(n: int, mailing_h: int) -> int {
    crate::geom::spec_row_height(spec_grid_avail(mailing_h) - 6000, crate::geom::spec_left_count(n) + 4)
}

/// Everything roster mode draws: the left column with the ceiling half of
/// the names, the right column with the rest, both sharing one row
/// height.
pub open spec fn spec_roster_grid_ops(names: Seq<Seq<char>>, mailing_h: int) -> Seq<POpV> {
    let n = names.len() as int;
    let left = crate::geom::spec_left_count(n);
    let rh = spec_roster_rh(n, mailing_h);
    let col_w = (crate::geom::PAGE_WIDTH_UM as int - 2 * MARGIN_UM as int - 6000) / 2;
    spec_column_ops(names.subrange(0, left), MARGIN_UM as int, col_w, GRID_TOP_Y_UM as int, rh)
        + spec_column_ops(
        names.subrange(left, n),
        MARGIN_UM as int + col_w + 6000,
        col_w,
        GRID_TOP_Y_UM as int,
        rh,
    )
}

/// Draw the adaptive two-column roster grid on the first page and hand
/// back the Y after the taller column: the start Y less the heading row
/// height less one shared row height per logical row.  The mailing
/// section draws from the bottom margin independently of this value.
pub fn roster_grid_ops(out: &mut Vec<PlacedOp>, roster: &Vec<String>, mailing_h: i64) -> (next_y:
    i64)
    requires
        0 <= mailing_h <= MAILING_SECTION_HEIGHT_UM,
    ensures
        final(out).deep_view() == old(out).deep_view() + spec_roster_grid_ops(
            roster.deep_view(),
            mailing_h as int,
        ),
        next_y == GRID_TOP_Y_UM - 6000 - (crate::geom::spec_left_count(roster@.len() as int) + 4)
            * spec_roster_rh(roster@.len() as int, mailing_h as int),
{
    let ghost names = roster.deep_view();
    let n = roster.len();
    let counts = crate::geom::split_roster_counts(n);
    let left = counts.0;
    let left_total: u64 = left as u64 + 4;
    let right_total: u64 = counts.1 as u64 + 4;
    let max_rows: u64 = if left_total >= right_total {
        left_total
    } else {
        right_total
    };
    proof {
        assert(max_rows == left_total);
    }
    let avail: i64 = GRID_TOP_Y_UM - MARGIN_UM - mailing_h - GRID_BOTTOM_GAP_UM;
    let avail_data: i64 = avail - 6000;
    let rh = crate::geom::compute_row_height(avail_data, max_rows);
    proof {
        crate::geom::lemma_rows_fit(avail_data as int, max_rows as int);
        if max_rows as int * (MAX_ROW_HEIGHT_UM as int) <= avail_data {
            vstd::arithmetic::mul::lemma_mul_inequality(
                rh as int,
                MAX_ROW_HEIGHT_UM as int,
                max_rows as int,
            );
            assert(max_rows as int * rh <= max_rows as int * (MAX_ROW_HEIGHT_UM as int))
                by (nonlinear_arith)
                requires
                    rh <= MAX_ROW_HEIGHT_UM,
                    max_rows >= 0,
            ;
        }
        assert(max_rows as int * rh <= avail_data);
        vstd::arithmetic::mul::lemma_mul_inequality(
            right_total as int,
            max_rows as int,
            rh as int,
        );
        assert(right_total as int * rh <= max_rows as int * rh) by (nonlinear_arith)
            requires
                right_total <= max_rows,
                rh >= 0,
        ;
        vstd::arithmetic::mul::lemma_mul_nonnegative(max_rows as int, rh as int);
        vstd::arithmetic::mul::lemma_mul_nonnegative(right_total as int, rh as int);
    }
    let col_w: i64 = (crate::geom::PAGE_WIDTH_UM - 2 * MARGIN_UM - 6000) / 2;
    roster_column_ops(out, roster, 0, left, MARGIN_UM, col_w, GRID_TOP_Y_UM, rh);
    roster_column_ops(out, roster, left, n, MARGIN_UM + col_w + 6000, col_w, GRID_TOP_Y_UM, rh);
    proof {
        assert(final(out).deep_view() =~= old(out).deep_view() + spec_roster_grid_ops(
            names,
            mailing_h as int,
        ));
    }
    if rh == 0 {
        proof {
            assert((max_rows as int) * (rh as int) == 0) by (nonlinear_arith)
                requires
                    rh == 0,
            ;
        }
        GRID_TOP_Y_UM - 6000
    } else {
        proof {
            assert(max_rows as int <= avail_data) by (nonlinear_arith)
                requires
                    max_rows as int * (rh as int) <= avail_data as int,
                    rh >= 1,
                    max_rows >= 0,
            ;
        }
        let total_rows: i64 = max_rows as i64;
        GRID_TOP_Y_UM - 6000 - total_rows * rh
    }
}


/// Every operation a table's seat rows emit lands on the one page the
/// plan assigned to the table: a table group is never split.
pub proof fn lemma_seat_rows_one_page(
    page: int,
    y: int,
    content_w: int,
    num: int,
    s: int,
    seats: int,
)
    ensures
        forall|k: int|
            0 <= k < spec_seat_rows(page, y, content_w, num, s, seats).len() ==> (
            #[trigger] spec_seat_rows(page, y, content_w, num, s, seats)[k]).page == page,
    decreases seats - s,
{
    if s < 0 || s >= seats {
    } else {
        let row = spec_seat_row_ops(page, y, content_w, num, s);
        let rest = spec_seat_rows(
            page,
            y - TABLE_SEAT_ROW_HEIGHT_UM as int,
            content_w,
            num,
            s + 1,
            seats,
        );
        lemma_seat_rows_one_page(
            page,
            y - TABLE_SEAT_ROW_HEIGHT_UM as int,
            content_w,
            num,
            s + 1,
            seats,
        );
        assert forall|k: int| 0 <= k < (row + rest).len() implies (#[trigger] (row + rest)[k]).page
            == page by {
            if k >= row.len() {
                assert((row + rest)[k] == rest[k - row.len()]);
            }
        }
    }
}


/// When the remaining tables all fit in the space left on the current
/// page, the walk breaks no page: every remaining table stays where the
/// cursor is.
pub proof fn lemma_plan_stays_on_page(n: int, t: int, y: int, space: int, page: int)
    requires
        (spec_num_tables(n) - t) * (TABLE_HEIGHT_UM as int) <= space,
    ensures
        forall|k: int|
            0 <= k < spec_plan(n, t, y, space, page).len() ==> (#[trigger] spec_plan(
                n,
                t,
                y,
                space,
                page,
            )[k]).page == page,
    decreases spec_num_tables(n) - t,
{
    if t < 0 || t >= spec_num_tables(n) {
    } else {
        let remaining = spec_num_tables(n) - t;
        assert(space >= TABLE_HEIGHT_UM as int) by (nonlinear_arith)
            requires
                remaining * (TABLE_HEIGHT_UM as int) <= space,
                remaining >= 1,
        ;
        let seats = if n - 4 * t < 4 {
            n - 4 * t
        } else {
            4
        };
        let used = seats * (TABLE_SEAT_ROW_HEIGHT_UM as int);
        assert(0 <= used <= TABLE_HEIGHT_UM as int) by (nonlinear_arith)
            requires
                0 <= seats <= 4,
                used == seats * (TABLE_SEAT_ROW_HEIGHT_UM as int),
        ;
        assert((remaining - 1) * (TABLE_HEIGHT_UM as int) <= space - used) by (nonlinear_arith)
            requires
                remaining * (TABLE_HEIGHT_UM as int) <= space,
                0 <= used <= TABLE_HEIGHT_UM as int,
        ;
        lemma_plan_stays_on_page(n, t + 1, y - used, space - used, page);
        let head = seq![PlaceV { page, y, seats }];
        let rest = spec_plan(n, t + 1, y - used, space - used, page);
        assert forall|k: int| 0 <= k < spec_plan(n, t, y, space, page).len() implies (
        #[trigger] spec_plan(n, t, y, space, page)[k]).page == page by {
            if k >= 1 {
                assert(spec_plan(n, t, y, space, page)[k] == rest[k - 1]);
            }
        }
    }
}

/// A blank-mode run whose tables together fit in the first page's free
/// space never overflows: the whole grid stays on the first page.
pub proof fn lemma_blank_fits_one_page(blank_rows: u32, mailing_h: int)
    requires
        0 <= mailing_h,
        spec_num_tables(blank_rows as int) * (TABLE_HEIGHT_UM as int) <= GRID_TOP_Y_UM as int
            - MARGIN_UM as int - mailing_h - GRID_BOTTOM_GAP_UM as int,
    ensures
        forall|k: int|
            0 <= k < spec_plan(
                blank_rows as int,
                0,
                GRID_TOP_Y_UM as int,
                GRID_TOP_Y_UM as int - MARGIN_UM as int - mailing_h - GRID_BOTTOM_GAP_UM as int,
                0,
            ).len() ==> (#[trigger] spec_plan(
                blank_rows as int,
                0,
                GRID_TOP_Y_UM as int,
                GRID_TOP_Y_UM as int - MARGIN_UM as int - mailing_h - GRID_BOTTOM_GAP_UM as int,
                0,
            )[k]).page == 0,
{
    lemma_plan_stays_on_page(
        blank_rows as int,
        0,
        GRID_TOP_Y_UM as int,
        GRID_TOP_Y_UM as int - MARGIN_UM as int - mailing_h - GRID_BOTTOM_GAP_UM as int,
        0,
    );
}

} // verus!
