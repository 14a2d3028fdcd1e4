use buddha_notify::calendar::{is_observance_description, parse_calendar, YearCalendar};

fn row(fields: &[&str]) -> Vec<String> {
    fields.iter().map(|f| f.to_string()).collect()
}

#[test]
fn observance_markers_are_recognised() {
    assert!(is_observance_description("วันพระ ขึ้น 8 ค่ำ"));
    assert!(is_observance_description("แรม 15 ค่ำ เดือน 3"));
    assert!(!is_observance_description("วันสงกรานต์"));
    assert!(!is_observance_description(""));
}

#[test]
fn parse_keeps_only_observance_rows() {
    let body = "วันพระ ขึ้น 8 ค่ำ,20240905,x\nวันสงกรานต์,20240413\nขึ้น 15 ค่ำ,20240920\n";
    let cal = parse_calendar(body).unwrap();
    assert_eq!(cal.get("20240905"), Some(&row(&["วันพระ ขึ้น 8 ค่ำ", "20240905", "x"])));
    assert_eq!(cal.get("20240920"), Some(&row(&["ขึ้น 15 ค่ำ", "20240920"])));
    assert_eq!(cal.get("20240413"), None);
    assert!(!cal.is_empty());
}

#[test]
fn parse_treats_first_row_as_data() {
    let cal = parse_calendar("วันพระ,20240101\n").unwrap();
    assert_eq!(cal.get("20240101"), Some(&row(&["วันพระ", "20240101"])));
}

#[test]
fn parse_skips_short_rows() {
    let cal = parse_calendar("วันพระ\nวันพระ,20240102\n").unwrap();
    assert_eq!(cal.get("วันพระ"), None);
    assert_eq!(cal.get("20240102"), Some(&row(&["วันพระ", "20240102"])));
}

#[test]
fn parse_of_empty_body_is_empty_calendar() {
    let cal = parse_calendar("").unwrap();
    assert!(cal.is_empty());
}

#[test]
fn later_row_with_same_date_wins() {
    let cal = parse_calendar("วันพระ a,20240101\nวันพระ b,20240101\n").unwrap();
    assert_eq!(cal.get("20240101"), Some(&row(&["วันพระ b", "20240101"])));
}

#[test]
fn calendar_insert_and_get() {
    let mut cal = YearCalendar::new();
    assert!(cal.is_empty());
    cal.insert("k".to_string(), row(&["a"]));
    cal.insert("j".to_string(), row(&["b"]));
    cal.insert("k".to_string(), row(&["c"]));
    assert_eq!(cal.get("k"), Some(&row(&["c"])));
    assert_eq!(cal.get("j"), Some(&row(&["b"])));
    assert_eq!(cal.get("z"), None);
    let copy = cal.duplicate();
    assert_eq!(copy.get("k"), Some(&row(&["c"])));
}

#[test]
fn first_line_is_data_and_unmarked_row_is_dropped() {
    let cal = parse_calendar("วันพระ ขึ้น 8 ค่ำ,20240905\nวันสงกรานต์,20240413\n").unwrap();
    assert_eq!(cal.get("20240905"), Some(&row(&["วันพระ ขึ้น 8 ค่ำ", "20240905"])));
    assert_eq!(cal.get("20240413"), None);
}
