use salesys::customer::{Customer, NewCustomer};
use salesys::invoice::NewInvoice;
use salesys::sale::NewSale;
use salesys::text::same_text;
use salesys::timestamp::{
    combine_range, format_timestamp, parse_date_range, parse_timestamp, DateRange,
    DateRangeError, ParseProblem, Timestamp,
};

fn moment(year: i32, month: u32, day: u32, hour: u32, minute: u32, second: u32) -> Timestamp {
    Timestamp { year, month, day, hour, minute, second, nanosecond: 0 }
}

#[test]
fn stored_text_is_read_field_by_field() {
    assert_eq!(parse_timestamp("2024-03-09 14:05:07"), Ok(moment(2024, 3, 9, 14, 5, 7)));
    assert_eq!(parse_timestamp("1999-12-31 23:59:59"), Ok(moment(1999, 12, 31, 23, 59, 59)));
}

#[test]
fn point_in_time_is_written_as_stored() {
    let text = format_timestamp(moment(2024, 3, 9, 14, 5, 7));
    assert_eq!(text, Some("2024-03-09 14:05:07".to_string()));
}

#[test]
fn written_text_reads_back() {
    let stamp = moment(2020, 2, 29, 0, 0, 0);
    let text = format_timestamp(stamp).unwrap();
    assert_eq!(text, "2020-02-29 00:00:00");
    assert_eq!(parse_timestamp(&text), Ok(stamp));
}

#[test]
fn leap_second_is_kept() {
    let stamp = parse_timestamp("2015-06-30 23:59:60").unwrap();
    assert_eq!(stamp.second, 59);
    assert_eq!(stamp.nanosecond, 1_000_000_000);
    assert_eq!(format_timestamp(stamp), Some("2015-06-30 23:59:60".to_string()));
}

#[test]
fn fields_that_are_no_date_are_not_written() {
    assert_eq!(format_timestamp(moment(2023, 2, 29, 0, 0, 0)), None);
    assert_eq!(format_timestamp(moment(2023, 13, 1, 0, 0, 0)), None);
    assert_eq!(format_timestamp(moment(2023, 1, 1, 24, 0, 0)), None);
    assert_eq!(format_timestamp(moment(2023, 1, 1, 0, 60, 0)), None);
}

#[test]
fn text_that_is_no_point_in_time_says_why() {
    assert_eq!(parse_timestamp("yesterday"), Err(ParseProblem::Invalid));
    assert_eq!(parse_timestamp("2024-03-09"), Err(ParseProblem::TooShort));
    assert_eq!(parse_timestamp("2024-03-09 14:05:07 UTC"), Err(ParseProblem::TooLong));
    assert_eq!(parse_timestamp("2024-13-09 14:05:07"), Err(ParseProblem::OutOfRange));
    assert_eq!(parse_timestamp("2023-02-30 14:05:07"), Err(ParseProblem::OutOfRange));
    assert_eq!(parse_timestamp(""), Err(ParseProblem::TooShort));
}

#[test]
fn every_problem_has_its_sentence() {
    assert_eq!(ParseProblem::OutOfRange.describe(), "input is out of range");
    assert_eq!(ParseProblem::Impossible.describe(), "no possible date and time matching input");
    assert_eq!(
        ParseProblem::NotEnough.describe(),
        "input is not enough for unique date and time"
    );
    assert_eq!(ParseProblem::Invalid.describe(), "input contains invalid characters");
    assert_eq!(ParseProblem::TooShort.describe(), "premature end of input");
    assert_eq!(ParseProblem::TooLong.describe(), "trailing input");
    assert_eq!(ParseProblem::BadFormat.describe(), "bad or unsupported format string");
}

#[test]
fn span_is_read_from_its_two_ends() {
    let range = parse_date_range("2024-01-01 00:00:00", "2024-01-31 23:59:59");
    assert_eq!(
        range,
        Ok(DateRange {
            start: moment(2024, 1, 1, 0, 0, 0),
            end: moment(2024, 1, 31, 23, 59, 59),
        })
    );
}

#[test]
fn bad_start_is_reported_as_such() {
    let range = parse_date_range("2024-01-01", "2024-01-31 23:59:59");
    assert_eq!(range, Err(DateRangeError::InvalidStart(ParseProblem::TooShort)));
    assert_eq!(
        range.unwrap_err().describe(),
        "Invalid start date format: premature end of input"
    );
}

#[test]
fn bad_end_is_reported_as_such() {
    let range = parse_date_range("2024-01-01 00:00:00", "soon");
    assert_eq!(range, Err(DateRangeError::InvalidEnd(ParseProblem::Invalid)));
    assert_eq!(
        range.unwrap_err().describe(),
        "Invalid end date format: input contains invalid characters"
    );
}

#[test]
fn bad_start_is_reported_before_a_bad_end() {
    let range = parse_date_range("soon", "2024-01-31");
    assert_eq!(range, Err(DateRangeError::InvalidStart(ParseProblem::Invalid)));
}

#[test]
fn ends_that_were_read_are_combined() {
    let start = moment(2024, 1, 1, 0, 0, 0);
    let end = moment(2024, 1, 2, 0, 0, 0);
    assert_eq!(combine_range(Ok(start), Ok(end)), Ok(DateRange { start, end }));
    assert_eq!(
        combine_range(Err(ParseProblem::TooLong), Err(ParseProblem::TooShort)),
        Err(DateRangeError::InvalidStart(ParseProblem::TooLong))
    );
    assert_eq!(
        combine_range(Ok(start), Err(ParseProblem::TooShort)),
        Err(DateRangeError::InvalidEnd(ParseProblem::TooShort))
    );
}

#[test]
fn span_may_run_backwards() {
    let range = parse_date_range("2024-02-01 00:00:00", "2024-01-01 00:00:00").unwrap();
    assert_eq!(range.start.month, 2);
    assert_eq!(range.end.month, 1);
}

#[test]
fn sale_without_status_is_completed() {
    let mut sale = NewSale {
        customer_id: None,
        subtotal: 2800,
        taxes: 448,
        total: 3248,
        payment_method: "cash".to_string(),
        status: None,
    };
    assert_eq!(sale.status_or_default(), "completed");
    sale.status = Some("refunded".to_string());
    assert_eq!(sale.status_or_default(), "refunded");
}

#[test]
fn invoice_without_status_is_active() {
    let mut invoice = NewInvoice {
        sale_id: 1,
        uuid: "0b2f".to_string(),
        file_path: "invoices/0b2f.xml".to_string(),
        status: None,
    };
    assert_eq!(invoice.status_or_default(), "active");
    invoice.status = Some("canceled".to_string());
    assert_eq!(invoice.status_or_default(), "canceled");
}

#[test]
fn new_customer_takes_its_identifier() {
    let attributes = NewCustomer {
        name: "Ana Ruiz".to_string(),
        email: Some("ana@example.com".to_string()),
        phone: None,
        address: None,
        rfc: Some("RUAA800101".to_string()),
    };
    assert_eq!(
        attributes.with_id(12),
        Customer {
            id: 12,
            name: "Ana Ruiz".to_string(),
            email: Some("ana@example.com".to_string()),
            phone: None,
            address: None,
            rfc: Some("RUAA800101".to_string()),
        }
    );
}

#[test]
fn texts_are_compared_by_their_characters() {
    assert!(same_text("admin", "admin"));
    assert!(!same_text("admin", "Admin"));
    assert!(!same_text("admin", "admin "));
    assert!(same_text("", ""));
}
