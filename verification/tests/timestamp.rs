use runx::timestamp::utc_timestamp;

#[test]
fn timestamps_read_as_utc_civil_time() {
    assert_eq!(utc_timestamp(0), "1970-01-01T00:00:00Z");
    assert_eq!(utc_timestamp(59), "1970-01-01T00:00:59Z");
    assert_eq!(utc_timestamp(951_782_400), "2000-02-29T00:00:00Z");
    assert_eq!(utc_timestamp(1_700_000_000), "2023-11-14T22:13:20Z");
    assert_eq!(utc_timestamp(4_102_444_799), "2099-12-31T23:59:59Z");
    assert_eq!(utc_timestamp(4_102_444_800), "2100-01-01T00:00:00Z");
    assert_eq!(utc_timestamp(4_107_542_400), "2100-03-01T00:00:00Z");
}
