use folio::duration::parse_duration_ms;

#[test]
fn parses_each_unit() {
    assert_eq!(parse_duration_ms("1s"), Some(1_000));
    assert_eq!(parse_duration_ms("250ms"), Some(250));
    assert_eq!(parse_duration_ms("90m"), Some(5_400_000));
    assert_eq!(parse_duration_ms("168h"), Some(604_800_000));
    assert_eq!(parse_duration_ms("2d"), Some(172_800_000));
    assert_eq!(parse_duration_ms("0s"), Some(0));
}

#[test]
fn refuses_malformed_durations() {
    assert_eq!(parse_duration_ms(""), None);
    assert_eq!(parse_duration_ms("s"), None);
    assert_eq!(parse_duration_ms("10"), None);
    assert_eq!(parse_duration_ms("10x"), None);
    assert_eq!(parse_duration_ms("1h30m"), None);
    assert_eq!(parse_duration_ms("-1s"), None);
    assert_eq!(parse_duration_ms("1 s"), None);
}

#[test]
fn refuses_what_does_not_fit() {
    assert_eq!(parse_duration_ms("18446744073709551615ms"), Some(u64::MAX));
    assert_eq!(parse_duration_ms("18446744073709551616ms"), None);
    assert_eq!(parse_duration_ms("18446744073709551615s"), None);
    assert_eq!(parse_duration_ms("99999999999999999999999d"), None);
}
