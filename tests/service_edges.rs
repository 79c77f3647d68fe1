use country_gdp::config::Config;
use country_gdp::error::ApiError;
use country_gdp::handlers::{delete_outcome, lookup_outcome, CountryQuery, SortOrder};
use country_gdp::image_generator::{bar_width, ImageGenerator};
use country_gdp::models::Country;

fn country(name: &str, gdp: Option<i128>) -> Country {
    Country {
        id: 1,
        name: name.to_string(),
        capital: None,
        region: None,
        population: 10,
        currency_code: None,
        exchange_rate: None,
        estimated_gdp: gdp,
        flag_url: None,
        last_refreshed_at: 0,
    }
}

#[test]
fn deleting_missing_name_is_not_found() {
    assert!(matches!(delete_outcome(0), Err(ApiError::NotFound)));
    let ok = delete_outcome(1).ok().unwrap();
    assert_eq!(ok.message, "Country deleted successfully");
}

#[test]
fn lookup_miss_is_not_found() {
    assert!(matches!(lookup_outcome(None), Err(ApiError::NotFound)));
    assert_eq!(lookup_outcome(Some(country("Genovia", None))).ok().unwrap().name, "Genovia");
}

#[test]
fn error_status_and_text() {
    assert_eq!(ApiError::NotFound.status_code(), 404);
    assert_eq!(ApiError::ValidationError(vec![]).status_code(), 400);
    assert_eq!(ApiError::ExternalApiError("x".to_string()).status_code(), 503);
    assert_eq!(ApiError::DatabaseError.status_code(), 500);
    assert_eq!(ApiError::InternalError.status_code(), 500);
    assert_eq!(ApiError::NotFound.message(), "Country not found");
    assert_eq!(ApiError::DatabaseError.message(), "Internal server error");
    assert_eq!(
        ApiError::ExternalApiError("restcountries.com".to_string()).detail_text().unwrap(),
        "Could not fetch data from restcountries.com"
    );
    assert!(ApiError::DatabaseError.detail_text().is_none());
}

#[test]
fn sort_keys() {
    assert_eq!(SortOrder::parse(&"gdp_desc".to_string()), Some(SortOrder::GdpDesc));
    assert_eq!(SortOrder::parse(&"gdp_asc".to_string()), Some(SortOrder::GdpAsc));
    assert_eq!(SortOrder::parse(&"population_desc".to_string()), Some(SortOrder::PopulationDesc));
    assert_eq!(SortOrder::parse(&"population_asc".to_string()), Some(SortOrder::PopulationAsc));
    assert_eq!(SortOrder::parse(&"name".to_string()), None);
    let q = CountryQuery { region: None, currency: None, sort: Some("bogus".to_string()) };
    assert_eq!(q.sort_order(), None);
}

#[test]
fn config_defaults() {
    let c = Config::with_defaults("mysql://db".to_string(), None, None, None);
    assert_eq!(c.server_host, "0.0.0.0");
    assert_eq!(c.server_port, 8080);
    assert_eq!(c.external_api_timeout_secs, 30);
    let c = Config::with_defaults("mysql://db".to_string(), Some("127.0.0.1".to_string()), Some(9000), Some(5));
    assert_eq!(c.server_host, "127.0.0.1");
    assert_eq!(c.server_port, 9000);
    assert_eq!(c.external_api_timeout_secs, 5);
    assert_eq!(c.database_url, "mysql://db");
}

#[test]
fn bar_widths_scale_and_clamp() {
    assert_eq!(bar_width(None), 0);
    assert_eq!(bar_width(Some(-5)), 0);
    assert_eq!(bar_width(Some(999_999_999)), 0);
    assert_eq!(bar_width(Some(250_000_000_000)), 250);
    assert_eq!(bar_width(Some(10_000_000_000_000)), 800);
}

#[test]
fn chart_gradient_and_bars() {
    let top = vec![
        country("A", Some(500_000_000_000)),
        country("B", None),
        country("C", Some(10_000_000_000_000)),
        country("D", Some(1_000_000_000)),
        country("E", Some(2_000_000_000)),
        country("F", Some(3_000_000_000_000)),
    ];
    let img = ImageGenerator::generate(&top, 6, 0);
    assert_eq!(img.height(), 700);
    assert_eq!(img.row_width(0), 1000);
    assert_eq!(img.pixel(0, 0), (255, 255, 255));
    assert_eq!(img.pixel(10, 699), (1, 1, 255));
    assert_eq!(img.pixel(0, 350), (128, 128, 255));
    let green = (0, 150, 0);
    assert_eq!(img.pixel(50, 100), green);
    assert_eq!(img.pixel(549, 159), green);
    assert_eq!(img.pixel(550, 100), (219, 219, 255));
    assert_eq!(img.pixel(49, 100), (219, 219, 255));
    assert_eq!(img.pixel(300, 160), (197, 197, 255));
    assert_ne!(img.pixel(50, 200), green);
    assert_eq!(img.pixel(849, 300), green);
    assert_ne!(img.pixel(850, 300), green);
    assert_eq!(img.pixel(50, 400), green);
    assert_ne!(img.pixel(51, 400), green);
    // only five bars: the sixth slot stays background
    assert_ne!(img.pixel(50, 600), green);
}
