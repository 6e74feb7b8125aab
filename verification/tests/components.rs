use xlsx_report::cells::{CellValue, encode_date_cell, encode_text_cell};
use xlsx_report::dates::UtcDateTime;
use xlsx_report::errors::EncodeError;
use xlsx_report::schema::{column_kind, date_number_format, header_label, CellKind};
use xlsx_report::widths::WidthTracker;

fn dt(year: i32, month: u8, day: u8, hour: u8, minute: u8, second: u8) -> UtcDateTime {
    UtcDateTime { year, month, day, hour, minute, second }
}

#[test]
fn representable_range_bounds() {
    assert!(dt(1900, 1, 1, 0, 0, 0).is_representable());
    assert!(dt(9999, 12, 31, 23, 59, 59).is_representable());
    assert!(!dt(1899, 12, 31, 23, 59, 59).is_representable());
    assert!(!dt(10000, 1, 1, 0, 0, 0).is_representable());
    assert!(!dt(0, 1, 1, 0, 0, 0).is_representable());
}

#[test]
fn calendar_field_validation() {
    assert!(!dt(2023, 13, 1, 0, 0, 0).is_representable());
    assert!(!dt(2023, 0, 1, 0, 0, 0).is_representable());
    assert!(!dt(2023, 4, 31, 0, 0, 0).is_representable());
    assert!(!dt(2023, 1, 0, 0, 0, 0).is_representable());
    assert!(!dt(2023, 1, 1, 24, 0, 0).is_representable());
    assert!(!dt(2023, 1, 1, 0, 60, 0).is_representable());
    assert!(!dt(2023, 1, 1, 0, 0, 60).is_representable());
}

#[test]
fn leap_years_have_february_29() {
    assert!(dt(2024, 2, 29, 0, 0, 0).is_representable());
    assert!(dt(2000, 2, 29, 0, 0, 0).is_representable());
    assert!(!dt(2023, 2, 29, 0, 0, 0).is_representable());
    // A century year is a leap year only when divisible by 400.
    assert!(!dt(2100, 2, 29, 0, 0, 0).is_representable());
}

#[test]
fn text_cell_carries_string_and_char_width() {
    let (cell, width) = encode_text_cell(&"héllo".to_string());
    assert_eq!(cell, CellValue::Text("héllo".to_string()));
    assert_eq!(width, 5);
}

#[test]
fn date_cell_contributes_fixed_width() {
    let d = dt(2023, 1, 15, 9, 30, 0);
    let (cell, width) = encode_date_cell(&d).expect("a representable date must encode");
    assert_eq!(cell, CellValue::Date(d));
    assert_eq!(width, 26);
}

#[test]
fn date_cell_rejects_unrepresentable_date() {
    let r = encode_date_cell(&dt(0, 1, 1, 0, 0, 0));
    assert_eq!(r.err(), Some(EncodeError::EncodingError));
}

#[test]
fn schema_labels_and_kinds() {
    let labels: Vec<&str> = (0..6usize).map(header_label).collect();
    assert_eq!(labels, vec!["Id", "StartDate", "EndDate", "Project", "Name", "Text"]);
    assert_eq!(column_kind(0), CellKind::Text);
    assert_eq!(column_kind(1), CellKind::Date);
    assert_eq!(column_kind(2), CellKind::Date);
    assert_eq!(column_kind(3), CellKind::Text);
    assert_eq!(column_kind(4), CellKind::Text);
    assert_eq!(column_kind(5), CellKind::Text);
    assert_eq!(date_number_format(), "dd/mm/yyyy hh:mm:ss AM/PM");
}

#[test]
fn tracker_starts_from_header_lengths() {
    let tracker = WidthTracker::new_from_headers();
    assert_eq!(tracker.finalize(), vec![2, 9, 7, 7, 4, 4]);
}

#[test]
fn tracker_keeps_running_maximum() {
    let mut tracker = WidthTracker::new_from_headers();
    tracker.record(0, 10);
    tracker.record(0, 4);
    tracker.record(5, 1);
    let widths = tracker.finalize();
    assert_eq!(widths[0], 10);
    assert_eq!(widths[5], 4);
}
