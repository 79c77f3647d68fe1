use country_gdp::repository::find_all_query;

const BASE: &str = "SELECT id, name, capital, region, population, currency_code, exchange_rate, estimated_gdp, flag_url, last_refreshed_at FROM countries WHERE 1=1";

#[test]
fn listing_without_filters() {
    let (sql, binds) = find_all_query(None, None, None);
    assert_eq!(sql, BASE);
    assert!(binds.is_empty());
}

#[test]
fn listing_with_filters_and_sort() {
    let (sql, binds) = find_all_query(
        Some("Africa".to_string()),
        Some("NGN".to_string()),
        Some("gdp_desc".to_string()),
    );
    assert_eq!(
        sql,
        format!("{} AND region = ? AND currency_code = ? ORDER BY estimated_gdp DESC", BASE)
    );
    assert_eq!(binds, vec!["Africa".to_string(), "NGN".to_string()]);
}

#[test]
fn listing_ignores_unknown_sort() {
    let (sql, binds) = find_all_query(None, Some("EUR".to_string()), Some("name_asc".to_string()));
    assert_eq!(sql, format!("{} AND currency_code = ?", BASE));
    assert_eq!(binds, vec!["EUR".to_string()]);
    let (sql, _) = find_all_query(None, None, Some("population_asc".to_string()));
    assert_eq!(sql, format!("{} ORDER BY population ASC", BASE));
}
