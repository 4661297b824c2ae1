use dee::rates::{list_currencies, normalize_currency, validate_currency_code, RatesError};

fn rejected(code: &str) -> bool {
    match validate_currency_code(code) {
        Err(e) => {
            assert_eq!(e.code(), "INVALID_ARGUMENT");
            matches!(e, RatesError::InvalidCurrencyCode(c) if c == code)
        }
        Ok(()) => false,
    }
}

#[test]
fn get_invalid_currency_json_error() {
    assert!(rejected("TOOLONG"));
}

#[test]
fn convert_invalid_from_currency() {
    assert!(rejected("XX"));
    assert!(validate_currency_code("EUR").is_ok());
}

#[test]
fn convert_invalid_to_currency() {
    assert!(validate_currency_code("USD").is_ok());
    assert!(rejected("NOPE"));
}

#[test]
fn currency_codes_are_trimmed_and_upper_cased() {
    assert!(validate_currency_code("usd").is_ok());
    assert!(validate_currency_code("  eur\n").is_ok());
    assert!(rejected("U1D"));
    assert!(rejected(""));
    assert_eq!(normalize_currency("  gbp "), "GBP");
}

#[test]
fn rates_error_codes() {
    assert_eq!(RatesError::CurrencyNotFound("X".to_string()).code(), "NOT_FOUND");
    assert_eq!(RatesError::TargetCurrencyNotFound("X".to_string()).code(), "NOT_FOUND");
    assert_eq!(RatesError::RequestFailed.code(), "REQUEST_FAILED");
    assert_eq!(RatesError::InvalidResponse.code(), "BAD_RESPONSE");
    assert_eq!(RatesError::InvalidAmount.code(), "INVALID_ARGUMENT");
}

#[test]
fn currency_list_is_upper_cased_sorted_and_unique() {
    let keys: Vec<String> = ["usd", "eur", "USD", "aud", "Eur", "btc"]
        .iter()
        .map(|s| s.to_string())
        .collect();
    assert_eq!(list_currencies(&keys), vec!["AUD", "BTC", "EUR", "USD"]);
}

#[test]
fn currency_list_orders_prefixes_first() {
    let keys: Vec<String> = ["abc", "ab", "b", "a", "ab"].iter().map(|s| s.to_string()).collect();
    assert_eq!(list_currencies(&keys), vec!["A", "AB", "ABC", "B"]);
    assert!(list_currencies(&Vec::new()).is_empty());
}

#[test]
fn unicode_white_space_is_trimmed() {
    assert_eq!(normalize_currency("\u{3000}jpy\u{a0}\u{85}"), "JPY");
    assert!(validate_currency_code("\u{2003}chf\t").is_ok());
    assert_eq!(normalize_currency(" \n "), "");
}
