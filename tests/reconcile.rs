use country_gdp::models::{CountryApiResponse, Currency};
use country_gdp::rates::ExchangeRateApiResponse;
use country_gdp::reconcile::{estimate_gdp, process_country, reconcile_country, select_currency_code};

fn payload(name: &str, population: i64, currencies: Option<Vec<Currency>>) -> CountryApiResponse {
    CountryApiResponse {
        name: name.to_string(),
        capital: Some("Birnin Zana".to_string()),
        region: Some("Africa".to_string()),
        population,
        flag: Some("https://flags.example/wk.svg".to_string()),
        currencies,
    }
}

fn code(c: &str) -> Currency {
    Currency { code: Some(c.to_string()) }
}

fn wkd_rates() -> ExchangeRateApiResponse {
    let mut rates = ExchangeRateApiResponse::new();
    assert!(rates.insert("WKD".to_string(), 2_000_000));
    rates
}

#[test]
fn wakanda_with_rate_gets_bounded_gdp() {
    let p = payload("Wakanda", 1_000_000, Some(vec![code("WKD")]));
    let r = process_country(&p, &wkd_rates());
    assert_eq!(r.exchange_rate, Some(2_000_000));
    let gdp = r.estimated_gdp.unwrap();
    assert!(gdp >= 500_000_000 && gdp <= 1_000_000_000);
    assert_eq!(r.currency_code.as_deref(), Some("WKD"));
    assert_eq!(r.name, "Wakanda");
    assert_eq!(r.population, 1_000_000);
    assert_eq!(r.flag_url.as_deref(), Some("https://flags.example/wk.svg"));
}

#[test]
fn wakanda_without_currencies_gets_zero_gdp() {
    let p = payload("Wakanda", 1_000_000, Some(vec![]));
    let r = process_country(&p, &wkd_rates());
    assert_eq!(r.exchange_rate, None);
    assert_eq!(r.estimated_gdp, Some(0));
    assert_eq!(r.currency_code, None);
}

#[test]
fn missing_currency_list_gets_zero_gdp() {
    let p = payload("Nowhere", 5, None);
    let r = process_country(&p, &wkd_rates());
    assert_eq!(r.exchange_rate, None);
    assert_eq!(r.estimated_gdp, Some(0));
}

#[test]
fn currency_without_code_gets_zero_gdp() {
    let p = payload("Nowhere", 5, Some(vec![Currency { code: None }, code("WKD")]));
    let r = process_country(&p, &wkd_rates());
    assert_eq!(r.currency_code, None);
    assert_eq!(r.exchange_rate, None);
    assert_eq!(r.estimated_gdp, Some(0));
}

#[test]
fn unknown_currency_leaves_rate_and_gdp_unset() {
    let p = payload("Elsewhere", 1_000, Some(vec![code("XYZ")]));
    let r = process_country(&p, &wkd_rates());
    assert_eq!(r.currency_code.as_deref(), Some("XYZ"));
    assert_eq!(r.exchange_rate, None);
    assert_eq!(r.estimated_gdp, None);
}

#[test]
fn only_first_currency_is_consulted() {
    let p = payload("Elsewhere", 1_000, Some(vec![code("XYZ"), code("WKD")]));
    assert_eq!(select_currency_code(&p.currencies).as_deref(), Some("XYZ"));
}

#[test]
fn exact_gdp_at_multiplier_bounds() {
    let p = payload("Wakanda", 1_000_000, Some(vec![code("WKD")]));
    let rates = wkd_rates();
    assert_eq!(reconcile_country(&p, &rates, 1_000_000).estimated_gdp, Some(500_000_000));
    assert_eq!(reconcile_country(&p, &rates, 2_000_000).estimated_gdp, Some(1_000_000_000));
    assert_eq!(reconcile_country(&p, &rates, 1_500_000).estimated_gdp, Some(750_000_000));
}

#[test]
fn gdp_estimate_truncates() {
    // 7 people × 1000.5 / 3.0 = 2334.5
    assert_eq!(estimate_gdp(7, 1_000_500, 3_000_000), 2334);
    assert_eq!(estimate_gdp(-7, 1_000_500, 3_000_000), -2334);
    assert_eq!(estimate_gdp(0, 2_000_000, 1), 0);
    assert_eq!(estimate_gdp(i64::MAX, 2_000_000, 1), (i64::MAX as i128) * 2_000_000_000_000 / 1000);
}

#[test]
fn repeated_reconciliation_keeps_identity_fields() {
    let p = payload("Wakanda", 1_000_000, Some(vec![code("WKD")]));
    let rates = wkd_rates();
    let a = process_country(&p, &rates);
    let b = process_country(&p, &rates);
    assert_eq!(a.name, b.name);
    assert_eq!(a.capital, b.capital);
    assert_eq!(a.region, b.region);
    assert_eq!(a.population, b.population);
    assert_eq!(a.currency_code, b.currency_code);
    assert_eq!(a.exchange_rate, b.exchange_rate);
}

#[test]
fn rates_refuse_zero_and_keep_latest() {
    let mut rates = ExchangeRateApiResponse::new();
    assert!(!rates.insert("ZZZ".to_string(), 0));
    assert_eq!(rates.get(&"ZZZ".to_string()), None);
    assert!(rates.insert("EUR".to_string(), 920_000));
    assert!(rates.insert("NGN".to_string(), 1_500_000_000));
    assert!(rates.insert("EUR".to_string(), 930_000));
    assert_eq!(rates.get(&"EUR".to_string()), Some(930_000));
    assert_eq!(rates.get(&"NGN".to_string()), Some(1_500_000_000));
    assert_eq!(rates.get(&"USD".to_string()), None);
}
