use vstd::prelude::*;

verus! {

/// One currency descriptor of the country directory.
pub struct Currency {
    pub code: Option<String>,
}

/// One entry of the external country directory.
pub struct CountryApiResponse {
    pub name: String,
    pub capital: Option<String>,
    pub region: Option<String>,
    pub population: i64,
    pub flag: Option<String>,
    pub currencies: Option<Vec<Currency>>,
}

/// A storage-ready country record.
///
/// `exchange_rate` is USD per unit in millionths (see `rates::RATE_SCALE`);
/// `estimated_gdp` is in whole USD.
pub struct CountryInsert {
    pub name: String,
    pub capital: Option<String>,
    pub region: Option<String>,
    pub population: i64,
    pub currency_code: Option<String>,
    pub exchange_rate: Option<u64>,
    pub estimated_gdp: Option<i128>,
    pub flag_url: Option<String>,
}

/// A persisted country record; `last_refreshed_at` is a UTC instant in
/// seconds since the Unix epoch.
pub struct Country {
    pub id: u64,
    pub name: String,
    pub capital: Option<String>,
    pub region: Option<String>,
    pub population: i64,
    pub currency_code: Option<String>,
    pub exchange_rate: Option<u64>,
    pub estimated_gdp: Option<i128>,
    pub flag_url: Option<String>,
    pub last_refreshed_at: i64,
}

/// The single refresh-metadata row; `last_refreshed_at` is a UTC instant in
/// seconds since the Unix epoch.
pub struct RefreshMetadata {
    pub total_countries: i32,
    pub last_refreshed_at: i64,
}

/// Copies an optional string; the copy is equal to its source.
pub fn clone_opt_string(s: &Option<String>) -> (r: Option<String>)
    ensures
        r == *s,
{
    match s {
        Some(v) => Some(v.clone()),
        None => None,
    }
}

} // verus!
