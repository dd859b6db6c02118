use dns_failover::failure::FailureKind;
use dns_failover::measurement::{extract, locate, parse_csv_result, Column};

const HEADER: &str = "IP 地址,已发送,已接收,丢包率,平均延迟,下载速度 (MB/s)";

fn row(fields: &[&str]) -> Vec<String> {
    fields.iter().map(|f| f.to_string()).collect()
}

#[test]
fn first_row_is_read() {
    let contents = format!(
        "{}\n104.16.1.1,4,4,0.00,151.23,12.34\n104.16.2.2,4,4,0.00,160.00,9.87\n",
        HEADER
    );
    let reading = parse_csv_result(&contents).unwrap();
    assert_eq!(reading.ip, "104.16.1.1");
    assert_eq!(reading.speed, "12.34");
}

#[test]
fn columns_are_found_by_name_not_by_position() {
    let contents = "下载速度 (MB/s),other,IP 地址\n0.50,x,9.9.9.9\n";
    let reading = parse_csv_result(contents).unwrap();
    assert_eq!(reading.ip, "9.9.9.9");
    assert_eq!(reading.speed, "0.50");
}

#[test]
fn quoted_fields_are_unquoted() {
    let contents = "\"IP 地址\",\"下载速度 (MB/s)\"\n\"9.9.9.9\",\"1,5\"\n";
    let reading = parse_csv_result(contents).unwrap();
    assert_eq!(reading.ip, "9.9.9.9");
    assert_eq!(reading.speed, "1,5");
}

#[test]
fn file_without_rows_is_a_parse_failure() {
    let contents = format!("{}\n", HEADER);
    let failure = parse_csv_result(&contents).unwrap_err();
    assert_eq!(failure.kind, FailureKind::ParseFailure);
    assert_eq!(failure.detail, "No entries found in the CSV result.");
    assert!(failure.body.is_empty());
}

#[test]
fn empty_file_is_a_parse_failure() {
    let failure = parse_csv_result("").unwrap_err();
    assert_eq!(failure.kind, FailureKind::ParseFailure);
    assert_eq!(failure.detail, "No entries found in the CSV result.");
}

#[test]
fn row_of_another_length_is_a_parse_failure() {
    let contents = format!("{}\n104.16.1.1,4,4\n", HEADER);
    let failure = parse_csv_result(&contents).unwrap_err();
    assert_eq!(failure.kind, FailureKind::ParseFailure);
    assert!(failure.detail.contains("found record with 3 fields"), "{}", failure.detail);
}

#[test]
fn missing_address_column_is_a_parse_failure() {
    let failure = parse_csv_result("address,下载速度 (MB/s)\n9.9.9.9,0.5\n").unwrap_err();
    assert_eq!(failure.kind, FailureKind::ParseFailure);
    assert_eq!(failure.detail, "missing column: IP 地址");
}

#[test]
fn missing_speed_column_is_a_parse_failure() {
    let failure = parse_csv_result("IP 地址,speed\n9.9.9.9,0.5\n").unwrap_err();
    assert_eq!(failure.kind, FailureKind::ParseFailure);
    assert_eq!(failure.detail, "missing column: 下载速度 (MB/s)");
}

#[test]
fn duplicate_column_is_a_parse_failure() {
    let twice = "IP 地址,IP 地址,下载速度 (MB/s)\n1.1.1.1,2.2.2.2,0.5\n";
    let failure = parse_csv_result(twice).unwrap_err();
    assert_eq!(failure.kind, FailureKind::ParseFailure);
    assert_eq!(failure.detail, "duplicate column: IP 地址");
    let twice = "IP 地址,下载速度 (MB/s),下载速度 (MB/s)\n1.1.1.1,0.5,0.6\n";
    let failure = parse_csv_result(twice).unwrap_err();
    assert_eq!(failure.detail, "duplicate column: 下载速度 (MB/s)");
}

#[test]
fn locate_tells_missing_unique_and_duplicate_apart() {
    let header = row(&["a", "b", "a", "c"]);
    assert_eq!(locate(&header, "b"), Column::At(1));
    assert_eq!(locate(&header, "c"), Column::At(3));
    assert_eq!(locate(&header, "a"), Column::Duplicate);
    assert_eq!(locate(&header, "d"), Column::Missing);
    assert_eq!(locate(&row(&[]), "a"), Column::Missing);
}

#[test]
fn extract_without_a_row_reports_no_entries() {
    let header = row(&["IP 地址", "下载速度 (MB/s)"]);
    let failure = extract(&header, None).unwrap_err();
    assert_eq!(failure.kind, FailureKind::ParseFailure);
    assert_eq!(failure.detail, "No entries found in the CSV result.");
}

#[test]
fn extract_hands_on_the_error_of_the_row() {
    let header = row(&["IP 地址", "下载速度 (MB/s)"]);
    let failure = extract(&header, Some(Err("broken row".to_string()))).unwrap_err();
    assert_eq!(failure.kind, FailureKind::ParseFailure);
    assert_eq!(failure.detail, "broken row");
}

#[test]
fn extract_refuses_a_row_shorter_than_the_header() {
    let header = row(&["IP 地址", "下载速度 (MB/s)"]);
    let failure = extract(&header, Some(Ok(row(&["9.9.9.9"])))).unwrap_err();
    assert_eq!(failure.kind, FailureKind::ParseFailure);
    assert_eq!(failure.detail, "The first row has fewer fields than the header.");
}

#[test]
fn extract_ignores_fields_beyond_the_header() {
    let header = row(&["下载速度 (MB/s)", "IP 地址"]);
    let reading = extract(&header, Some(Ok(row(&["0.5", "9.9.9.9", "extra"])))).unwrap();
    assert_eq!(reading.ip, "9.9.9.9");
    assert_eq!(reading.speed, "0.5");
}
