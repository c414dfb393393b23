//! Mailing signup footer: a fixed-height section anchored to the bottom
//! margin, always on the first page, with evenly spaced name/email lines.

use vstd::prelude::*;
use vstd::string::StrSliceExecFns;
use crate::geom::{
    MAILING_SECTION_HEIGHT_UM, MARGIN_UM, NORMAL_FONT_SIZE, SMALL_FONT_SIZE,
};
use crate::ops::{emit, DrawOp, OpV, PlacedOp, POpV};

verus! {

/// Whether one name carries the star marker.
pub open spec fn spec_name_has_star(s: Seq<char>) -> bool {
    exists|j: int| 0 <= j < s.len() && s[j] == '*'
}

/// Whether any of a list of names carries the star marker.
pub open spec fn spec_names_have_star(ns: Seq<Seq<char>>) -> bool {
    exists|i: int| 0 <= i < ns.len() && #[trigger] spec_name_has_star(ns[i])
}

/// Whether any roster name carries the star marker; a missing roster has
/// none.
pub open spec fn spec_has_star(ro: Option<Seq<Seq<char>>>) -> bool {
    match ro {
        None => false,
        Some(ns) => spec_names_have_star(ns),
    }
}

#[verifier::loop_isolation(false)]
fn name_has_star(s: &String) -> (r: bool)
    ensures
        r == spec_name_has_star(s@),
{
    let st = s.as_str();
    let n = st.unicode_len();
    let mut i: usize = 0;
    while i < n
        invariant
            i <= n,
            n == st@.len(),
            st@ == s@,
            forall|j: int| 0 <= j < i ==> s@[j] != '*',
        decreases n - i,
    {
        if st.get_char(i) == '*' {
            return true;
        }
        i = i + 1;
    }
    false
}

/// Whether the roster holds a starred name, which switches the mailing
/// header caption.
#[verifier::loop_isolation(false)]
pub fn roster_has_star(ro: &Option<Vec<String>>) -> (r: bool)
    ensures
        r == spec_has_star(ro.deep_view()),
{
    match ro {
        None => false,
        Some(names) => {
            let n = names.len();
            let mut i: usize = 0;
            while i < n
                invariant
                    i <= n,
                    n == names@.len(),
                    forall|k: int| 0 <= k < i ==> !spec_name_has_star(names.deep_view()[k]),
                decreases n - i,
            {
                if name_has_star(&names[i]) {
                    proof {
                        assert(names.deep_view()[i as int] == names@[i as int]@);
                        assert(ro.deep_view() == Some(names.deep_view()));
                        assert(spec_names_have_star(names.deep_view()));
                    }
                    return true;
                }
                proof {
                    assert(names.deep_view()[i as int] == names@[i as int]@);
                }
                i = i + 1;
            }
            false
        },
    }
}

/// The caption centred over the signup lines.
pub open spec fn spec_mailing_header_text(has_star: bool) -> Seq<char> {
    if has_star {
        "* JOIN MY MAILING LIST"@
    } else {
        "JOIN MY MAILING LIST"@
    }
}

/// One signup line pair: a name label and rule, an email label and rule.
pub open spec fn spec_mail_row_ops(y: int, cw: int) -> Seq<POpV> {
    seq![
        POpV {
            page: 0,
            op: OpV::Text {
                content: "Name:"@,
                size: SMALL_FONT_SIZE as int,
                x: MARGIN_UM + 2000,
                y,
                bold: false,
            },
        },
        POpV {
            page: 0,
            op: OpV::Line {
                x1: MARGIN_UM + 15000,
                y1: y - 500,
                x2: MARGIN_UM + cw * 45 / 100,
                y2: y - 500,
                width: 500,
                shade: 0,
            },
        },
        POpV {
            page: 0,
            op: OpV::Text {
                content: "Email:"@,
                size: SMALL_FONT_SIZE as int,
                x: MARGIN_UM + cw * 48 / 100,
                y,
                bold: false,
            },
        },
        POpV {
            page: 0,
            op: OpV::Line {
                x1: MARGIN_UM + cw * 48 / 100 + 12000,
                y1: y - 500,
                x2: MARGIN_UM + cw - 2000,
                y2: y - 500,
                width: 500,
                shade: 0,
            },
        },
    ]
}

/// The remaining signup rows from `y` down, one `step` apart.
pub open spec fn spec_mail_rows(k: nat, y: int, step: int, cw: int) -> Seq<POpV>
    decreases k,
{
    if k == 0 {
        Seq::empty()
    } else {
        spec_mail_row_ops(y, cw) + spec_mail_rows((k - 1) as nat, y - step, step, cw)
    }
}

/// The whole mailing section: a top border, the centred caption, then
/// `rows` evenly spaced signup line pairs.  The section height is a
/// constant: the rows divide the same space however many there are.
pub open spec fn spec_mailing_ops(rows: int, cw: int, has_star: bool) -> Seq<POpV> {
    let y_top = MARGIN_UM as int + MAILING_SECTION_HEIGHT_UM as int;
    let step = (MAILING_SECTION_HEIGHT_UM as int - 10000 - 3000) / rows;
    seq![
        POpV {
            page: 0,
            op: OpV::Line {
                x1: MARGIN_UM as int,
                y1: y_top,
                x2: MARGIN_UM + cw,
                y2: y_top,
                width: 500,
                shade: 0,
            },
        },
        POpV {
            page: 0,
            op: OpV::Text {
                content: spec_mailing_header_text(has_star),
                size: NORMAL_FONT_SIZE as int,
                x: MARGIN_UM + cw / 2 - 20000,
                y: y_top - 6000,
                bold: true,
            },
        },
    ] + spec_mail_rows(rows as nat, y_top - 10000, step, cw)
}

/// Draw the mailing section onto the first page.
#[verifier::loop_isolation(false)]
pub fn mailing_ops(out: &mut Vec<PlacedOp>, rows: u32, cw: i64, has_star: bool)
    requires
        rows >= 1,
        0 <= cw <= 1000000,
    ensures
        final(out).deep_view() == old(out).deep_view() + spec_mailing_ops(
            rows as int,
            cw as int,
            has_star,
        ),
{
    let ghost full = old(out).deep_view() + spec_mailing_ops(rows as int, cw as int, has_star);
    let y_top: i64 = MARGIN_UM + MAILING_SECTION_HEIGHT_UM;
    let step: i64 = (MAILING_SECTION_HEIGHT_UM - 10000 - 3000) / (rows as i64);
    emit(
        out,
        0,
        DrawOp::Line { x1: MARGIN_UM, y1: y_top, x2: MARGIN_UM + cw, y2: y_top, width: 500, shade: 0 },
    );
    let caption: &'static str = if has_star {
        "* JOIN MY MAILING LIST"
    } else {
        "JOIN MY MAILING LIST"
    };
    emit(
        out,
        0,
        DrawOp::Text {
            content: caption.to_owned(),
            size: NORMAL_FONT_SIZE,
            x: MARGIN_UM + cw / 2 - 20000,
            y: y_top - 6000,
            bold: true,
        },
    );
    let mut y: i64 = y_top - 10000;
    let mut k: u32 = 0;
    proof {
        vstd::arithmetic::div_mod::lemma_div_pos_is_pos(34000, rows as int);
        vstd::arithmetic::div_mod::lemma_fundamental_div_mod(34000, rows as int);
        vstd::arithmetic::div_mod::lemma_mod_bound(34000, rows as int);
        assert((rows as int) * (step as int) <= 34000);
        assert((k as int) * (step as int) == 0) by (nonlinear_arith)
            requires
                k == 0,
        ;
        assert(out.deep_view() + spec_mail_rows(
            (rows - k) as nat,
            y as int,
            step as int,
            cw as int,
        ) =~= full);
    }
    while k < rows
        invariant
            k <= rows,
            y == y_top - 10000 - k * step,
            out.deep_view() + spec_mail_rows((rows - k) as nat, y as int, step as int, cw as int)
                == full,
        decreases rows - k,
    {
        proof {
            vstd::arithmetic::mul::lemma_mul_inequality(k as int, rows as int, step as int);
            vstd::arithmetic::mul::lemma_mul_inequality(k as int + 1, rows as int, step as int);
            vstd::arithmetic::mul::lemma_mul_nonnegative(k as int, step as int);
            assert((k as int + 1) * step == k as int * step + step) by (nonlinear_arith);
        }
        emit(
            out,
            0,
            DrawOp::Text {
                content: "Name:".to_owned(),
                size: SMALL_FONT_SIZE,
                x: MARGIN_UM + 2000,
                y,
                bold: false,
            },
        );
        emit(
            out,
            0,
            DrawOp::Line {
                x1: MARGIN_UM + 15000,
                y1: y - 500,
                x2: MARGIN_UM + cw * 45 / 100,
                y2: y - 500,
                width: 500,
                shade: 0,
            },
        );
        emit(
            out,
            0,
            DrawOp::Text {
                content: "Email:".to_owned(),
                size: SMALL_FONT_SIZE,
                x: MARGIN_UM + cw * 48 / 100,
                y,
                bold: false,
            },
        );
        emit(
            out,
            0,
            DrawOp::Line {
                x1: MARGIN_UM + cw * 48 / 100 + 12000,
                y1: y - 500,
                x2: MARGIN_UM + cw - 2000,
                y2: y - 500,
                width: 500,
                shade: 0,
            },
        );
        proof {
            assert(out.deep_view() + spec_mail_rows(
                (rows - k - 1) as nat,
                y as int - step as int,
                step as int,
                cw as int,
            ) =~= full);
        }
        y = y - step;
        k = k + 1;
    }
    proof {
        assert(spec_mail_rows(0, y as int, step as int, cw as int) =~= Seq::<POpV>::empty());
        assert(final(out).deep_view() + Seq::<POpV>::empty() =~= final(out).deep_view());
    }
}

} // verus!
