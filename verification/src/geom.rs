//! Geometry planner: fixed page constants and the derived quantities that
//! the layout sections share.
//!
//! Physical lengths are in micrometres (um), i.e. thousandths of a
//! millimetre, so all geometry stays in exact integer arithmetic.

use vstd::prelude::*;

verus! {

/// US letter page width, um.
pub const PAGE_WIDTH_UM: i64 = 215900;

/// US letter page height, um.
pub const PAGE_HEIGHT_UM: i64 = 279400;

/// Margin on all four sides, um.
pub const MARGIN_UM: i64 = 15000;

/// Side length of the square QR block, um.
pub const QR_SIZE_UM: i64 = 30000;

/// Cap on the adaptive roster-mode row height, um.
pub const MAX_ROW_HEIGHT_UM: i64 = 9000;

/// Fixed row height in blank (table/seat) mode, um.
pub const TABLE_SEAT_ROW_HEIGHT_UM: i64 = 12000;

/// Font sizes in points.
pub const TITLE_FONT_SIZE: u32 = 18;
pub const HEADER_FONT_SIZE: u32 = 12;
pub const NORMAL_FONT_SIZE: u32 = 11;
pub const SMALL_FONT_SIZE: u32 = 9;

/// Column width shares, in hundredths of the column width.  The three
/// shares sum to 100.
pub const NAME_COL_PERCENT: i64 = 60;
pub const TABLE_COL_PERCENT: i64 = 15;
pub const SEAT_COL_PERCENT: i64 = 25;

/// Fixed height of the mailing signup section, um; independent of how many
/// signup rows it is divided into.
pub const MAILING_SECTION_HEIGHT_UM: i64 = 47000;

/// Height of one complete four-seat table group in blank mode, um.
pub const TABLE_HEIGHT_UM: i64 = 4 * TABLE_SEAT_ROW_HEIGHT_UM;

/// Top edge of the grid region: the Y the header hands back, just below
/// the QR block plus its spacing.
pub const GRID_TOP_Y_UM: i64 = PAGE_HEIGHT_UM - MARGIN_UM - QR_SIZE_UM - 8000;

/// Buffer kept between the grid and the mailing section, um.
pub const GRID_BOTTOM_GAP_UM: i64 = 5000;

/// Usable horizontal span: page width minus both margins.
pub fn content_width() -> (w: i64)
    ensures
        w == PAGE_WIDTH_UM - 2 * MARGIN_UM,
{
    PAGE_WIDTH_UM - 2 * MARGIN_UM
}

/// Height consumed by the mailing section: a constant, whatever the row
/// count, so the section keeps one size and rows pack tighter or looser.
pub fn mailing_section_height(_rows: u32) -> (h: i64)
    ensures
        h == MAILING_SECTION_HEIGHT_UM,
{
    MAILING_SECTION_HEIGHT_UM
}

/// How a roster of `n` names splits over the two columns.
pub open spec fn spec_left_count(n: int) -> int {
    (n + 1) / 2
}

/// Left column takes the ceiling half of the roster, right the floor half;
/// the left column is never shorter than the right.
pub fn split_roster_counts(n: usize) -> (r: (usize, usize))
    ensures
        r.0 == spec_left_count(n as int),
        r.1 == n as int - spec_left_count(n as int),
        r.0 + r.1 == n,
        r.1 <= r.0,
        r.0 <= r.1 + 1,
        r.0 == (n as int + 1) / 2,
        r.1 == n as int / 2,
{
    let left: usize = n / 2 + n % 2;
    let right: usize = n / 2;
    (left, right)
}

/// Shared roster row height: available height divided by the taller
/// logical row count, capped at `MAX_ROW_HEIGHT_UM`.
pub open spec fn spec_row_height(avail: int, rows: int) -> int {
    let fit = avail / rows;
    if fit < MAX_ROW_HEIGHT_UM as int {
        fit
    } else {
        MAX_ROW_HEIGHT_UM as int
    }
}

/// Both columns always share one row height, derived from the taller of
/// the two logical row counts.
pub fn compute_row_height(avail: i64, rows: u64) -> (h: i64)
    requires
        avail >= 0,
        rows >= 1,
    ensures
        h == spec_row_height(avail as int, rows as int),
        0 <= h <= MAX_ROW_HEIGHT_UM,
{
    let fit: u64 = (avail as u64) / rows;
    if fit < (MAX_ROW_HEIGHT_UM as u64) {
        fit as i64
    } else {
        MAX_ROW_HEIGHT_UM
    }
}

/// The computed row height never exceeds the configured cap and never goes
/// negative, for any available-height/row-count combination; and the rows
/// at that height never overrun the available height.
pub proof fn lemma_row_height_bounds(avail: int, rows: int)
    requires
        avail >= 0,
        rows >= 1,
    ensures
        0 <= spec_row_height(avail, rows) <= MAX_ROW_HEIGHT_UM,
        rows * spec_row_height(avail, rows) <= avail || spec_row_height(avail, rows)
            == MAX_ROW_HEIGHT_UM as int,
{
    let q = avail / rows;
    vstd::arithmetic::div_mod::lemma_fundamental_div_mod(avail, rows);
    vstd::arithmetic::div_mod::lemma_div_pos_is_pos(avail, rows);
    if q < MAX_ROW_HEIGHT_UM as int {
        vstd::arithmetic::div_mod::lemma_mod_bound(avail, rows);
        assert(rows * q <= avail);
    }
}

/// A full set of rows at the shared height fits in the available height.
pub proof fn lemma_rows_fit(avail: int, rows: int)
    requires
        avail >= 0,
        rows >= 1,
    ensures
        rows * spec_row_height(avail, rows) <= avail || rows * (MAX_ROW_HEIGHT_UM as int) <= avail,
{
    let q = avail / rows;
    let h = spec_row_height(avail, rows);
    vstd::arithmetic::div_mod::lemma_fundamental_div_mod(avail, rows);
    vstd::arithmetic::div_mod::lemma_mod_bound(avail, rows);
    assert(rows * q <= avail);
    if h == MAX_ROW_HEIGHT_UM as int && q >= MAX_ROW_HEIGHT_UM as int {
        vstd::arithmetic::mul::lemma_mul_inequality(MAX_ROW_HEIGHT_UM as int, q, rows);
        assert(rows * MAX_ROW_HEIGHT_UM as int <= rows * q);
    }
}

/// Fit of a `w_px` x `h_px` raster into a `max_w` x `max_h` box, aspect
/// ratio preserved: when the box is proportionally wider than the image
/// the height binds, otherwise (ties included) the width binds.
pub open spec fn spec_fit_box(w_px: int, h_px: int, max_w: int, max_h: int) -> (int, int) {
    if max_w * h_px > max_h * w_px {
        ((max_h * w_px) / h_px, max_h)
    } else {
        (max_w, (max_w * h_px) / w_px)
    }
}

/// Scale an image into a bounding box preserving aspect ratio: one side
/// exactly matches its bound and the other stays within its bound.  A tie
/// between the two aspect ratios is treated as width-constrained.
pub fn fit_box(w_px: u32, h_px: u32, max_w: i64, max_h: i64) -> (r: (i64, i64))
    requires
        w_px >= 1,
        h_px >= 1,
        0 <= max_w <= 1000000,
        0 <= max_h <= 1000000,
    ensures
        (r.0 as int, r.1 as int) == spec_fit_box(w_px as int, h_px as int, max_w as int, max_h as int),
        0 <= r.0 <= max_w,
        0 <= r.1 <= max_h,
        r.0 == max_w || r.1 == max_h,
{
    let w: i64 = w_px as i64;
    let h: i64 = h_px as i64;
    proof {
        assert(max_w * h <= 1000000 * 0x1_0000_0000i64 && max_h * w <= 1000000
            * 0x1_0000_0000i64) by (nonlinear_arith)
            requires
                0 <= max_w <= 1000000,
                0 <= max_h <= 1000000,
                0 <= w <= 0xffff_ffffi64,
                0 <= h <= 0xffff_ffffi64,
        ;
    }
    if max_w * h > max_h * w {
        let fw: i64 = (max_h * w) / h;
        assert(0 <= fw <= max_w) by (nonlinear_arith)
            requires
                w >= 1,
                h >= 1,
                max_w >= 0,
                max_h >= 0,
                max_w * h > max_h * w,
                fw == (max_h as int * w as int) / (h as int),
        ;
        (fw, max_h)
    } else {
        let fh: i64 = (max_w * h) / w;
        assert(0 <= fh <= max_h) by (nonlinear_arith)
            requires
                w >= 1,
                h >= 1,
                max_w >= 0,
                max_h >= 0,
                max_w * h <= max_h * w,
                fh == (max_w as int * h as int) / (w as int),
        ;
        (max_w, fh)
    }
}

} // verus!
