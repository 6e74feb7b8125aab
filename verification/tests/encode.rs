use xlsx_report::cells::CellValue;
use xlsx_report::dates::UtcDateTime;
use xlsx_report::errors::EncodeError;
use xlsx_report::record::Thing;
use xlsx_report::workbook::encode_workbook;

fn dt(year: i32, month: u8, day: u8, hour: u8, minute: u8, second: u8) -> UtcDateTime {
    UtcDateTime { year, month, day, hour, minute, second }
}

fn thing(id: &str, start: UtcDateTime, end: UtcDateTime, project: &str, name: &str, text: &str) -> Thing {
    Thing {
        id: id.to_string(),
        start_date: start,
        end_date: end,
        project: project.to_string(),
        name: name.to_string(),
        text: text.to_string(),
    }
}

fn sample(id: &str, text: &str) -> Thing {
    thing(
        id,
        dt(2023, 1, 15, 9, 30, 0),
        dt(2023, 1, 15, 10, 0, 0),
        "P",
        "Alice",
        text,
    )
}

#[test]
fn one_record_document() {
    let input = vec![thing(
        "a1",
        dt(2023, 1, 15, 9, 30, 0),
        dt(2023, 1, 15, 10, 0, 0),
        "P",
        "Alice",
        "hello",
    )];
    let plan = encode_workbook(&input).expect("representable dates must encode");
    assert_eq!(plan.rows.len(), 2);
    assert_eq!(
        plan.rows[0],
        vec![
            CellValue::Text("Id".to_string()),
            CellValue::Text("StartDate".to_string()),
            CellValue::Text("EndDate".to_string()),
            CellValue::Text("Project".to_string()),
            CellValue::Text("Name".to_string()),
            CellValue::Text("Text".to_string()),
        ]
    );
    assert_eq!(
        plan.rows[1],
        vec![
            CellValue::Text("a1".to_string()),
            CellValue::Date(dt(2023, 1, 15, 9, 30, 0)),
            CellValue::Date(dt(2023, 1, 15, 10, 0, 0)),
            CellValue::Text("P".to_string()),
            CellValue::Text("Alice".to_string()),
            CellValue::Text("hello".to_string()),
        ]
    );
    // Column 0: max(len "Id", len "a1") = 2, padded by 1.2 -> 2.4 characters.
    assert_eq!(plan.column_widths[0], 2);
    assert_eq!(plan.column_display_width_tenths(0), 24);
    // Column 1: a date column is always 26 wide, padded by 1.2 -> 31.2.
    assert_eq!(plan.column_widths[1], 26);
    assert_eq!(plan.column_display_width_tenths(1), 312);
}

#[test]
fn empty_input_header_only() {
    let input: Vec<Thing> = vec![];
    let plan = encode_workbook(&input).expect("the empty input must encode");
    assert_eq!(plan.rows.len(), 1);
    assert_eq!(plan.rows[0].len(), 6);
    assert_eq!(plan.rows[0][0], CellValue::Text("Id".to_string()));
    assert_eq!(plan.rows[0][5], CellValue::Text("Text".to_string()));
    // Widths come purely from the header label lengths.
    assert_eq!(plan.column_widths, vec![2, 9, 7, 7, 4, 4]);
}

#[test]
fn row_count_is_input_length_plus_one() {
    let input = vec![sample("a", "x"), sample("b", "y"), sample("c", "z")];
    let plan = encode_workbook(&input).expect("representable dates must encode");
    assert_eq!(plan.rows.len(), 4);
}

#[test]
fn header_and_data_columns_align() {
    let input = vec![sample("a1", "hello")];
    let plan = encode_workbook(&input).expect("representable dates must encode");
    let header = &plan.rows[0];
    let data = &plan.rows[1];
    assert_eq!(header.len(), data.len());
    // The same index holds the label and the corresponding field: no gap.
    assert_eq!(header[0], CellValue::Text("Id".to_string()));
    assert_eq!(data[0], CellValue::Text("a1".to_string()));
    assert_eq!(header[3], CellValue::Text("Project".to_string()));
    assert_eq!(data[3], CellValue::Text("P".to_string()));
    assert_eq!(header[4], CellValue::Text("Name".to_string()));
    assert_eq!(data[4], CellValue::Text("Alice".to_string()));
    assert_eq!(header[5], CellValue::Text("Text".to_string()));
    assert_eq!(data[5], CellValue::Text("hello".to_string()));
}

#[test]
fn final_width_covers_longest_content() {
    let long = "a text that is thirty chars!!!";
    assert_eq!(long.chars().count(), 30);
    let input = vec![sample("a", "x"), sample("b", long)];
    let plan = encode_workbook(&input).expect("representable dates must encode");
    assert_eq!(plan.column_widths[5], 30);
    let tenths = plan.column_display_width_tenths(5);
    assert_eq!(tenths, 360);
    // At least 1.2 times the longest content and 1.2 times the header label.
    assert!(tenths >= 12 * 30);
    assert!(tenths >= 12 * "Text".chars().count() as u128);
}

#[test]
fn date_columns_are_always_26_wide() {
    // Short and long rendered dates alike contribute exactly 26.
    let input = vec![
        thing("a", dt(2001, 1, 1, 0, 0, 0), dt(2001, 1, 1, 0, 0, 1), "p", "n", "t"),
        thing("b", dt(9999, 12, 31, 23, 59, 59), dt(1900, 1, 1, 0, 0, 0), "p", "n", "t"),
    ];
    let plan = encode_workbook(&input).expect("representable dates must encode");
    assert_eq!(plan.column_widths[1], 26);
    assert_eq!(plan.column_widths[2], 26);
}

#[test]
fn reencoding_is_deterministic() {
    let input = vec![sample("a1", "hello"), sample("b2", "wörld")];
    let first = encode_workbook(&input).expect("representable dates must encode");
    let second = encode_workbook(&input).expect("representable dates must encode");
    assert_eq!(first.rows.len(), second.rows.len());
    assert_eq!(first.rows, second.rows);
    assert_eq!(first.column_widths, second.column_widths);
}

#[test]
fn unrepresentable_date_fails_with_encoding_error() {
    let input = vec![thing(
        "a1",
        dt(0, 1, 1, 0, 0, 0),
        dt(2023, 1, 15, 10, 0, 0),
        "P",
        "Alice",
        "hello",
    )];
    let r = encode_workbook(&input);
    assert_eq!(r.err(), Some(EncodeError::EncodingError));
}

#[test]
fn one_bad_record_fails_the_whole_encode() {
    let input = vec![
        sample("good", "fine"),
        thing("bad", dt(2023, 2, 29, 0, 0, 0), dt(2023, 3, 1, 0, 0, 0), "p", "n", "t"),
    ];
    let r = encode_workbook(&input);
    assert!(r.is_err());
}

#[test]
fn text_width_counts_characters_not_bytes() {
    // Five characters, seven bytes: the tracked width must be 5.
    let word = "héllö";
    assert_eq!(word.len(), 7);
    let input = vec![sample("ab", word)];
    let plan = encode_workbook(&input).expect("representable dates must encode");
    assert_eq!(plan.column_widths[5], 5);
}
