use chunkstore::diskscan::{df_space_of_fields, parse_u64, windows_drive_of, wmic_space_of_fields};

fn fields(parts: &[&str]) -> Vec<String> {
    parts.iter().map(|p| p.to_string()).collect()
}

#[test]
fn parses_decimal_numbers_exactly() {
    assert_eq!(parse_u64("0"), Some(0));
    assert_eq!(parse_u64("42"), Some(42));
    assert_eq!(parse_u64("18446744073709551615"), Some(u64::MAX));
    assert_eq!(parse_u64("007"), Some(7));
}

#[test]
fn rejects_non_numbers_and_overflow() {
    assert_eq!(parse_u64(""), None);
    assert_eq!(parse_u64("12a"), None);
    assert_eq!(parse_u64("-5"), None);
    assert_eq!(parse_u64(" 5"), None);
    assert_eq!(parse_u64("18446744073709551616"), None);
    assert_eq!(parse_u64("99999999999999999999999"), None);
}

#[test]
fn df_fields_scale_blocks_to_bytes() {
    let parts = fields(&["/dev/sda1", "1000", "600", "400", "60%", "/"]);
    let info = df_space_of_fields(&parts).expect("a well-formed data line");
    assert_eq!(info.total, 1000 * 1024);
    assert_eq!(info.available, 400 * 1024);
}

#[test]
fn df_fields_missing_or_bad_are_refused() {
    assert!(df_space_of_fields(&fields(&["/dev/sda1", "1000", "600"])).is_none());
    assert!(df_space_of_fields(&fields(&["a", "x", "c", "400"])).is_none());
    assert!(df_space_of_fields(&fields(&["a", "1000", "c", "x"])).is_none());
    // Scaling this by 1024 would not fit in a byte count.
    assert!(df_space_of_fields(&fields(&["a", "18446744073709551615", "c", "1"])).is_none());
}

#[test]
fn wmic_fields_are_bytes_already() {
    let parts = fields(&["5000", "9000"]);
    let info = wmic_space_of_fields(&parts).expect("two numeric fields");
    assert_eq!(info.available, 5000);
    assert_eq!(info.total, 9000);
    assert!(wmic_space_of_fields(&fields(&["5000"])).is_none());
    assert!(wmic_space_of_fields(&fields(&["FreeSpace", "Size"])).is_none());
}

#[test]
fn drive_tokens_become_mount_paths() {
    assert_eq!(windows_drive_of("C:"), Some("C:\\".to_string()));
    assert_eq!(windows_drive_of("D:"), Some("D:\\".to_string()));
    assert_eq!(windows_drive_of("C"), None);
    assert_eq!(windows_drive_of("C:d"), None);
    assert_eq!(windows_drive_of("CD"), None);
    assert_eq!(windows_drive_of(""), None);
}
