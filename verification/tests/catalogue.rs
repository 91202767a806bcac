use currency_converter::currency::{currency_code, Currency};
use regex::Regex;

#[test]
fn catalogue_lists_ten_currencies_in_order() {
    assert_eq!(
        Currency::all(),
        vec![
            Currency::USD,
            Currency::EUR,
            Currency::RUB,
            Currency::GBP,
            Currency::CAD,
            Currency::AUD,
            Currency::JPY,
            Currency::INR,
            Currency::NZD,
            Currency::CHF,
        ]
    );
}

#[test]
fn codes_are_three_upper_case_letters() {
    for currency in Currency::all() {
        let code = currency.code();
        assert_eq!(code.chars().count(), 3);
        assert!(code.chars().all(|c| ('A'..='Z').contains(&c)));
    }
}

#[test]
fn codes_are_unique() {
    let all = Currency::all();
    for (i, a) in all.iter().enumerate() {
        for (j, b) in all.iter().enumerate() {
            assert_eq!(a.code() == b.code(), i == j);
        }
    }
}

#[test]
fn codes_are_as_listed() {
    let codes: Vec<&str> = Currency::all().into_iter().map(|c| c.code()).collect();
    assert_eq!(codes, vec!["USD", "EUR", "RUB", "GBP", "CAD", "AUD", "JPY", "INR", "NZD", "CHF"]);
}

#[test]
fn labels_are_as_listed() {
    assert_eq!(Currency::USD.label(), "USD - US Dollar");
    assert_eq!(Currency::EUR.label(), "EUR - Euro");
    assert_eq!(Currency::RUB.label(), "RUB - Russian Ruble");
    assert_eq!(Currency::GBP.label(), "GBP - British Pound");
    assert_eq!(Currency::CAD.label(), "CAD - Canadian Dollar");
    assert_eq!(Currency::AUD.label(), "AUD - Australian Dollar");
    assert_eq!(Currency::JPY.label(), "JPY - Japanese Yen");
    assert_eq!(Currency::INR.label(), "INR - Indian Rupee");
    assert_eq!(Currency::NZD.label(), "NZD - New Zealand Dollar");
    assert_eq!(Currency::CHF.label(), "CHF - Swiss Franc");
}

#[test]
fn label_leads_with_code() {
    for currency in Currency::all() {
        assert_eq!(currency_code(currency.label()), Some(currency.code()));
    }
}

#[test]
fn code_is_read_off_the_head_only() {
    assert_eq!(currency_code("RUB - Russian Ruble"), Some("RUB"));
    assert_eq!(currency_code("ABCD"), Some("ABC"));
    assert_eq!(currency_code("XYZ"), Some("XYZ"));
}

#[test]
fn label_without_code_yields_nothing() {
    assert_eq!(currency_code(""), None);
    assert_eq!(currency_code("US"), None);
    assert_eq!(currency_code("usd - US Dollar"), None);
    assert_eq!(currency_code("US1"), None);
    assert_eq!(currency_code(" USD"), None);
    assert_eq!(currency_code("\u{00c4}BC"), None);
    assert_eq!(currency_code("AB\u{00e9}D"), None);
}

#[test]
fn code_reader_agrees_with_the_pattern() {
    let pattern = Regex::new(r"^[A-Z]{3}").unwrap();
    let samples = [
        "",
        "A",
        "AB",
        "ABC",
        "ABCD",
        "aBC",
        "AbC",
        "ABc",
        "A BC",
        "@AB",
        "[AB",
        "ZZZ top",
        "USD - US Dollar",
        "\u{00c9}UR - Euro",
        "EU\u{00ae}",
        "x USD",
    ];
    for sample in samples.iter() {
        let expected = pattern.find(sample).map(|m| m.as_str());
        assert_eq!(currency_code(sample), expected, "sample {:?}", sample);
    }
}
