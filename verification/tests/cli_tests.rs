use razer::cli::parse_rate;
use razer::PollingRate;

#[test]
fn parses_supported_rates() {
    assert_eq!(parse_rate("125"), Ok(PollingRate::Hz125));
    assert_eq!(parse_rate("500"), Ok(PollingRate::Hz500));
    assert_eq!(parse_rate("1000"), Ok(PollingRate::Hz1000));
}

#[test]
fn rejects_unsupported_rates() {
    assert!(parse_rate("2000").is_err());
}

#[test]
fn rejection_names_the_text() {
    assert_eq!(parse_rate("2000"), Err("unsupported polling rate: 2000".to_string()));
    assert_eq!(parse_rate(""), Err("unsupported polling rate: ".to_string()));
    assert!(parse_rate("125 ").is_err());
    assert!(parse_rate("12").is_err());
}

#[test]
fn hz_text_reads_back() {
    for rate in [PollingRate::Hz125, PollingRate::Hz500, PollingRate::Hz1000] {
        assert_eq!(parse_rate(&rate.hz().to_string()), Ok(rate));
    }
}
