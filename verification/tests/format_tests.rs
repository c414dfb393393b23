use attendance_pdf::date::{format_date_display, format_date_iso, parse_iso_date, Date};
use attendance_pdf::error::AppError;
use attendance_pdf::ident::generate_short_id;
use attendance_pdf::ops::AttendanceConfig;
use attendance_pdf::qr::{qr_payload_bytes, qr_raster};

fn config_with(name: &str, teacher: &str, event_id: &str) -> AttendanceConfig {
    AttendanceConfig {
        class_name: String::from(name),
        teacher: String::from(teacher),
        date: Date::from_ymd(2025, 12, 25).unwrap(),
        location: String::new(),
        event_id: String::from(event_id),
        roster: None,
        blank_rows: 32,
        mailing_list: true,
        mailing_rows: 4,
        logo: None,
    }
}

#[test]
fn parse_valid_date() {
    let d = parse_iso_date("2025-12-25").unwrap();
    assert_eq!((d.year, d.month, d.day), (2025, 12, 25));
}

#[test]
fn parse_leap_day() {
    assert!(parse_iso_date("2024-02-29").is_ok());
    assert!(parse_iso_date("2025-02-29").is_err());
    assert!(parse_iso_date("2000-02-29").is_ok());
    assert!(parse_iso_date("1900-02-29").is_err());
}

#[test]
fn parse_rejects_malformed_text() {
    for bad in ["not-a-date", "2025-13-01", "2025-00-10", "2025-04-31", "25-12-25", "2025/12/25", ""] {
        match parse_iso_date(bad) {
            Err(AppError::DateError(m)) => assert_eq!(m, bad),
            other => panic!("expected a date error for {:?}, got {:?}", bad, other),
        }
    }
}

#[test]
fn iso_format_round_trips() {
    let d = parse_iso_date("2025-01-05").unwrap();
    assert_eq!(format_date_iso(d), "2025-01-05");
}

#[test]
fn display_format_spells_out_the_date() {
    let d = Date::from_ymd(2025, 12, 25).unwrap();
    assert_eq!(format_date_display(d), "Thursday, December 25, 2025");
    let d = Date::from_ymd(2000, 1, 1).unwrap();
    assert_eq!(format_date_display(d), "Saturday, January 1, 2000");
    let d = Date::from_ymd(2024, 2, 29).unwrap();
    assert_eq!(format_date_display(d), "Thursday, February 29, 2024");
}

#[test]
fn short_id_is_eight_upper_hex_digits() {
    let id = generate_short_id();
    assert_eq!(id.len(), 8);
    assert!(id.chars().all(|c| c.is_ascii_digit() || ('A'..='F').contains(&c)));
}

#[test]
fn qr_payload_has_stable_key_order() {
    let config = config_with("Tuesday", "Rick", "ABCD1234");
    let payload = qr_payload_bytes(&config);
    let expected = "{\"app\":\"bridge-attendance\",\"event_id\":\"ABCD1234\",\"name\":\"Tuesday\",\"date\":\"2025-12-25\",\"teacher\":\"Rick\"}";
    assert_eq!(payload, expected.as_bytes());
}

#[test]
fn qr_payload_reencodes_byte_identically() {
    let config = config_with("Evening Class", "Jane", "0F1E2D3C");
    let first = qr_payload_bytes(&config);
    let second = qr_payload_bytes(&config);
    assert_eq!(first, second);
}

#[test]
fn qr_payload_escapes_special_characters() {
    let config = config_with("Say \"hi\"\n", "Back\\slash", "ID000001");
    let payload = qr_payload_bytes(&config);
    let text = String::from_utf8(payload).unwrap();
    assert!(text.contains("\"name\":\"Say \\\"hi\\\"\\n\""));
    assert!(text.contains("\"teacher\":\"Back\\\\slash\""));
}

#[test]
fn qr_raster_is_square_black_and_white() {
    let config = config_with("Tuesday", "Rick", "ABCD1234");
    let payload = qr_payload_bytes(&config);
    let raster = qr_raster(&payload).unwrap();
    assert_eq!(raster.width, raster.height);
    // At least version 1 plus the quiet zone, at the default module size.
    assert!(raster.width >= 21);
    assert_eq!(raster.pixels.len(), 3 * (raster.width as usize) * (raster.height as usize));
    assert!(raster.pixels.iter().any(|&p| p == 0));
    assert!(raster.pixels.iter().any(|&p| p == 255));
    // Every pixel is a gray value expanded to three equal channels.
    for chunk in raster.pixels.chunks(3) {
        assert_eq!(chunk[0], chunk[1]);
        assert_eq!(chunk[1], chunk[2]);
    }
}

#[test]
fn oversized_qr_payload_is_a_qr_error() {
    let huge = vec![65u8; 5000];
    match qr_raster(&huge) {
        Err(AppError::QrError(_)) => {},
        other => panic!("expected a QR error, got {:?}", other.map(|_| ())),
    }
}

#[test]
fn error_kinds_name_their_variant() {
    assert_eq!(AppError::DateError(String::from("x")).kind(), "date");
    assert_eq!(AppError::QrError(String::from("x")).kind(), "QR code");
    assert_eq!(AppError::RosterError(String::from("x")).kind(), "roster");
    assert_eq!(AppError::PdfError(String::from("x")).kind(), "PDF generation");
    assert_eq!(AppError::LogoError(String::from("x")).kind(), "logo");
    assert_eq!(AppError::IoError(String::from("x")).message(), "x");
}
