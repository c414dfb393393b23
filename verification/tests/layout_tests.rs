use attendance_pdf::date::Date;
use attendance_pdf::driver::{generate, Layout};
use attendance_pdf::geom::{compute_row_height, fit_box, split_roster_counts};
use attendance_pdf::grid::plan_tables;
use attendance_pdf::mailing::roster_has_star;
use attendance_pdf::ops::{AttendanceConfig, DrawOp, RgbaRaster};

fn base_config() -> AttendanceConfig {
    AttendanceConfig {
        class_name: String::from("Tuesday Beginner Bridge"),
        teacher: String::from("Rick"),
        date: Date::from_ymd(2025, 12, 25).unwrap(),
        location: String::new(),
        event_id: String::from("ABCD1234"),
        roster: None,
        blank_rows: 32,
        mailing_list: true,
        mailing_rows: 4,
        logo: None,
    }
}

#[test]
fn blank_mode_thirty_two_rows_makes_eight_tables() {
    let plan = plan_tables(32, 47000);
    assert_eq!(plan.len(), 8);
    for p in &plan {
        assert_eq!(p.seats, 4);
    }
}

#[test]
fn blank_mode_tables_never_split_across_pages() {
    // 32 rows with the mailing reservation: three tables fit on page one,
    // the rest move whole to the continuation page.
    let plan = plan_tables(32, 47000);
    let pages: Vec<u32> = plan.iter().map(|p| p.page).collect();
    assert_eq!(pages, vec![0, 0, 0, 1, 1, 1, 1, 1]);
    for p in &plan {
        // All four seat rows fit above the bottom margin on that page.
        assert!(p.y - 48000 >= 15000);
    }
}

#[test]
fn blank_mode_partial_last_table() {
    let plan = plan_tables(6, 0);
    assert_eq!(plan.len(), 2);
    assert_eq!(plan[0].seats, 4);
    assert_eq!(plan[1].seats, 2);
}

#[test]
fn blank_mode_generation_spans_two_pages() {
    let config = base_config();
    let layout = generate(&config).unwrap();
    assert_eq!(layout.pages, 2);
}

#[test]
fn blank_mode_without_mailing_fits_differently() {
    // Without the mailing reservation the first page holds four tables.
    let plan = plan_tables(32, 0);
    let pages: Vec<u32> = plan.iter().map(|p| p.page).collect();
    assert_eq!(pages, vec![0, 0, 0, 0, 1, 1, 1, 1]);
}

#[test]
fn roster_split_thirty_seven() {
    let (left, right) = split_roster_counts(37);
    assert_eq!(left, 19);
    assert_eq!(right, 18);
    assert_eq!(left + right, 37);
}

#[test]
fn roster_split_edge_cases() {
    assert_eq!(split_roster_counts(0), (0, 0));
    assert_eq!(split_roster_counts(1), (1, 0));
    assert_eq!(split_roster_counts(2), (1, 1));
}

#[test]
fn row_height_is_capped() {
    // Plenty of space for few rows: the cap binds.
    assert_eq!(compute_row_height(153400, 5), 9000);
    // Many rows: the height adapts downward.
    assert_eq!(compute_row_height(153400, 23), 153400 / 23);
    // Degenerate: a huge row count drives the height to zero, never below.
    assert_eq!(compute_row_height(153400, 1_000_000), 0);
}

#[test]
fn roster_of_thirty_seven_lays_out_one_page() {
    let mut config = base_config();
    let names: Vec<String> = (1..=37).map(|i| format!("Player {}", i)).collect();
    config.roster = Some(names);
    let layout = generate(&config).unwrap();
    assert_eq!(layout.pages, 1);
    // Shared row height: available 226400 - 15000 - 47000 - 5000 - 6000,
    // taller column 19 + 4 walk-ins.
    assert_eq!(compute_row_height(153400, 23), 6669);
}

#[test]
fn empty_roster_without_mailing_renders_header_and_blank_rows() {
    let mut config = base_config();
    config.roster = Some(Vec::new());
    config.mailing_list = false;
    let layout = generate(&config).unwrap();
    assert_eq!(layout.pages, 1);
    // Header band: QR image, title, class, date, instructor, event id.
    // Each column: 4 heading ops, then 4 walk-in rows of 2 ops.
    assert_eq!(layout.ops.len(), 6 + 2 * (4 + 4 * 2));
    for op in &layout.ops {
        assert_eq!(op.page, 0);
    }
}

#[test]
fn logo_three_to_one_is_width_constrained() {
    let (w, h) = fit_box(3, 1, 50000, 30000);
    assert_eq!((w, h), (50000, 16666));
    let (w, h) = fit_box(300, 100, 50000, 30000);
    assert_eq!((w, h), (50000, 16666));
}

#[test]
fn logo_tall_image_is_height_constrained() {
    let (w, h) = fit_box(1, 3, 50000, 30000);
    assert_eq!((w, h), (10000, 30000));
}

#[test]
fn logo_matching_aspect_treated_as_width_constrained() {
    let (w, h) = fit_box(500, 300, 50000, 30000);
    assert_eq!((w, h), (50000, 30000));
}

#[test]
fn generation_is_deterministic() {
    let config = base_config();
    let a: Layout = generate(&config).unwrap();
    let b: Layout = generate(&config).unwrap();
    assert_eq!(a.pages, b.pages);
    assert_eq!(a.ops, b.ops);
}

#[test]
fn logo_is_flattened_and_placed() {
    let mut config = base_config();
    // A 2x1 image: one opaque red pixel, one half-transparent black pixel.
    config.logo = Some(RgbaRaster {
        width: 2,
        height: 1,
        pixels: vec![255, 0, 0, 255, 0, 0, 0, 128],
    });
    let layout = generate(&config).unwrap();
    let image_ops: Vec<&DrawOp> = layout
        .ops
        .iter()
        .filter(|p| matches!(p.op, DrawOp::Image { .. }))
        .map(|p| &p.op)
        .collect();
    // The QR raster and the logo.
    assert_eq!(image_ops.len(), 2);
    if let DrawOp::Image { raster, x, y, width, smooth } = image_ops[1] {
        assert_eq!((raster.width, raster.height), (2, 1));
        // Opaque red stays red; half-transparent black blends to gray:
        // (0 * 128 + 255 * 127) / 255 = 127.
        assert_eq!(raster.pixels, vec![255, 0, 0, 127, 127, 127]);
        // 2:1 into 50000 x 30000 is width-constrained: 50000 x 25000,
        // right-aligned at the content edge, top-aligned with the header.
        assert_eq!(*width, 50000);
        assert_eq!(*x, 215900 - 15000 - 50000);
        assert_eq!(*y, 279400 - 15000 - 25000);
        // A photograph is smoothed when scaled; the QR raster is not.
        assert!(*smooth);
    } else {
        panic!("expected an image operation");
    }
}

#[test]
fn starred_roster_changes_mailing_caption() {
    let mut config = base_config();
    config.roster = Some(vec![String::from("Alice"), String::from("Bob*")]);
    let layout = generate(&config).unwrap();
    let caption = layout.ops.iter().find_map(|p| match &p.op {
        DrawOp::Text { content, .. } if content.contains("MAILING") => Some(content.clone()),
        _ => None,
    });
    assert_eq!(caption.unwrap(), "* JOIN MY MAILING LIST");
}

#[test]
fn unstarred_roster_keeps_plain_mailing_caption() {
    let mut config = base_config();
    config.roster = Some(vec![String::from("Alice")]);
    let layout = generate(&config).unwrap();
    let caption = layout.ops.iter().find_map(|p| match &p.op {
        DrawOp::Text { content, .. } if content.contains("MAILING") => Some(content.clone()),
        _ => None,
    });
    assert_eq!(caption.unwrap(), "JOIN MY MAILING LIST");
}

#[test]
fn star_detection() {
    assert!(roster_has_star(&Some(vec![String::from("Ann*")])));
    assert!(!roster_has_star(&Some(vec![String::from("Ann")])));
    assert!(!roster_has_star(&None));
}

#[test]
fn mailing_section_rows_pack_into_fixed_height() {
    // The mailing section always occupies the same band; more rows only
    // pack tighter.  Two texts and two lines per signup row, plus the
    // border and caption.
    let mut config = base_config();
    config.mailing_rows = 6;
    let layout = generate(&config).unwrap();
    let mailing_texts = layout
        .ops
        .iter()
        .filter(|p| match &p.op {
            DrawOp::Text { content, .. } => content == "Name:" || content == "Email:",
            _ => false,
        })
        .count();
    assert_eq!(mailing_texts, 12);
    // All mailing ops land on the first page even though the grid is
    // multi-page.
    assert_eq!(layout.pages, 2);
    for p in &layout.ops {
        if let DrawOp::Text { content, .. } = &p.op {
            if content == "Name:" || content == "Email:" {
                assert_eq!(p.page, 0);
            }
        }
    }
}

#[test]
fn table_labels_appear_once_per_table() {
    let config = base_config();
    let layout = generate(&config).unwrap();
    let labels: Vec<String> = layout
        .ops
        .iter()
        .filter_map(|p| match &p.op {
            DrawOp::Text { content, .. } if content.starts_with("Table ") => {
                Some(content.clone())
            },
            _ => None,
        })
        .collect();
    let expected: Vec<String> = (1..=8).map(|i| format!("Table {}", i)).collect();
    assert_eq!(labels, expected);
}

#[test]
fn seat_rows_follow_fixed_order() {
    let mut config = base_config();
    config.blank_rows = 4;
    config.mailing_list = false;
    let layout = generate(&config).unwrap();
    let seats: Vec<String> = layout
        .ops
        .iter()
        .filter_map(|p| match &p.op {
            DrawOp::Text { content, .. }
                if ["North", "South", "East", "West"].contains(&content.as_str()) =>
            {
                Some(content.clone())
            },
            _ => None,
        })
        .collect();
    assert_eq!(seats, vec!["North", "South", "East", "West"]);
}

#[test]
fn blank_mode_fits_one_page_when_tables_fit() {
    // Three tables need 144000 um; the first page offers 159400 um after
    // the header, margin, mailing reservation and buffer.
    let mut config = base_config();
    config.blank_rows = 12;
    let layout = generate(&config).unwrap();
    assert_eq!(layout.pages, 1);
    for p in &layout.ops {
        assert_eq!(p.page, 0);
    }
}

#[test]
fn mailing_rows_are_evenly_spaced() {
    // Four rows divide the 34000 um left under the caption: one every
    // 8500 um starting at 52000.
    let config = base_config();
    let layout = generate(&config).unwrap();
    let name_ys: Vec<i64> = layout
        .ops
        .iter()
        .filter_map(|p| match &p.op {
            DrawOp::Text { content, y, .. } if content == "Name:" => Some(*y),
            _ => None,
        })
        .collect();
    assert_eq!(name_ys, vec![52000, 43500, 35000, 26500]);
}

#[test]
fn roster_grid_returns_offset_after_taller_column() {
    // Empty roster with mailing enabled: each column is four walk-in rows
    // at the capped height, so the grid ends at
    // 226400 - 6000 - 4 * 9000 = 184400.
    let mut ops = Vec::new();
    let next_y = attendance_pdf::grid::roster_grid_ops(&mut ops, &Vec::new(), 47000);
    assert_eq!(next_y, 184400);
}

#[test]
fn geometry_is_independent_of_event_id() {
    let a = generate(&base_config()).unwrap();
    let mut config = base_config();
    config.event_id = String::from("00FF00FF");
    let b = generate(&config).unwrap();
    assert_eq!(a.pages, b.pages);
    assert_eq!(a.ops.len(), b.ops.len());
    for (pa, pb) in a.ops.iter().zip(b.ops.iter()) {
        assert_eq!(pa.page, pb.page);
        match (&pa.op, &pb.op) {
            (
                DrawOp::Text { size: s1, x: x1, y: y1, bold: b1, .. },
                DrawOp::Text { size: s2, x: x2, y: y2, bold: b2, .. },
            ) => {
                assert_eq!((s1, x1, y1, b1), (s2, x2, y2, b2));
            },
            (DrawOp::Line { .. }, DrawOp::Line { .. }) => {
                assert_eq!(pa.op, pb.op);
            },
            (
                DrawOp::Image { x: x1, y: y1, width: w1, smooth: m1, .. },
                DrawOp::Image { x: x2, y: y2, width: w2, smooth: m2, .. },
            ) => {
                assert_eq!((x1, y1, w1, m1), (x2, y2, w2, m2));
            },
            _ => panic!("operation kinds diverged"),
        }
    }
}
