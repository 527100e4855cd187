use finance_client::currency::{code_index, code_rate, conversion_rates, currency_index, rate_hundredths};

#[test]
fn currency_codes_are_found() {
    assert_eq!(currency_index("USD"), Some(0));
    assert_eq!(currency_index("EUR"), Some(1));
    assert_eq!(currency_index("JPY"), Some(2));
    assert_eq!(currency_index("GBP"), Some(3));
    assert_eq!(currency_index("usd"), None);
    assert_eq!(currency_index(""), None);
    assert_eq!(currency_index("USDX"), None);
}

#[test]
fn rate_table_values() {
    assert_eq!(rate_hundredths(0), 100);
    assert_eq!(rate_hundredths(1), 85);
    assert_eq!(rate_hundredths(2), 11000);
    assert_eq!(rate_hundredths(3), 75);
}

#[test]
fn unknown_code_uses_neutral_rate() {
    assert_eq!(code_rate("CHF"), 100);
    assert_eq!(code_rate("JPY"), 11000);
}

#[test]
fn conversion_rates_of_a_pair() {
    assert_eq!(conversion_rates("USD", "EUR"), (100, 85));
    assert_eq!(conversion_rates("GBP", "JPY"), (75, 11000));
}

#[test]
fn same_currency_converts_to_itself() {
    for c in ["USD", "EUR", "JPY", "GBP"] {
        let (from, to) = conversion_rates(c, c);
        assert_eq!(from, to);
        let amount: u64 = 12345;
        assert_eq!(amount * to / from, amount);
    }
}

#[test]
fn numeric_codes_are_clamped() {
    assert_eq!(code_index(-5), 0);
    assert_eq!(code_index(0), 0);
    assert_eq!(code_index(2), 2);
    assert_eq!(code_index(3), 3);
    assert_eq!(code_index(99), 3);
    assert_eq!(code_index(i32::MIN), 0);
    assert_eq!(code_index(i32::MAX), 3);
}
