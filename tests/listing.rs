use blob_cli::listing::{blob_row, blobs_header, container_row, containers_header, decimal_string, pad_left_string};

#[test]
fn decimal_notation() {
    assert_eq!(decimal_string(0), "0");
    assert_eq!(decimal_string(7), "7");
    assert_eq!(decimal_string(10), "10");
    assert_eq!(decimal_string(1234), "1234");
    assert_eq!(decimal_string(u64::MAX), "18446744073709551615");
}

#[test]
fn right_alignment() {
    assert_eq!(pad_left_string("42", 8), "      42");
    assert_eq!(pad_left_string("123456789", 8), "123456789");
    assert_eq!(pad_left_string("", 3), "   ");
    assert_eq!(pad_left_string("é", 3), "  é");
}

#[test]
fn blob_listing_lines() {
    assert_eq!(blobs_header(3, "box"), "List of 3 blobs in container 'box'");
    let row = blob_row("2021-05-01 10:00:00 UTC", 1234, "BlockBlob", "a.txt");
    assert_eq!(row, " 2021-05-01 10:00:00 UTC     1234  BlockBlob a.txt");
    assert_eq!(row, format!(" {} {:>8} {:>10} {}", "2021-05-01 10:00:00 UTC", 1234, "BlockBlob", "a.txt"));
}

#[test]
fn container_listing_lines() {
    assert_eq!(containers_header(0), "List of 0 containers");
    assert_eq!(containers_header(12), "List of 12 containers");
    assert_eq!(container_row("2021-05-01 10:00:00 UTC", "box"), " 2021-05-01 10:00:00 UTC box");
}
