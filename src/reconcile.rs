use vstd::prelude::*;
use vstd::arithmetic::div_mod::lemma_div_is_ordered;
use vstd::arithmetic::mul::lemma_mul_inequality;
use crate::models::{clone_opt_string, CountryApiResponse, CountryInsert, Currency};
use crate::rates::{ExchangeRateApiResponse, RATE_SCALE};
use rand::Rng;

verus! {

/// The GDP multiplier is held in thousandths.
pub const MULTIPLIER_SCALE: u64 = 1000;

/// Smallest multiplier, 1000.0 in thousandths.
pub const MIN_MULTIPLIER: u64 = 1_000_000;

/// Largest multiplier, 2000.0 in thousandths.
pub const MAX_MULTIPLIER: u64 = 2_000_000;

/// The currency code of a directory entry: that of its first currency, if any.
pub open spec fn first_currency_code(currencies: Option<Vec<Currency>>) -> Option<String> {
    match currencies {
        Some(v) => if v@.len() > 0 { v@[0].code } else { None },
        None => None,
    }
}

/// `population × multiplier / rate` in whole USD, truncated toward zero,
/// where the multiplier is in thousandths and the rate in millionths.
pub open spec fn gdp_estimate(population: int, multiplier: int, rate: int) -> int {
    let num = if population >= 0 { population } else { -population };
    let q = (num * multiplier * RATE_SCALE) / (MULTIPLIER_SCALE * rate);
    if population >= 0 { q } else { -q }
}

/// The record that a directory entry yields under the given rates and
/// multiplier.
pub open spec fn reconciled(
    p: CountryApiResponse,
    rates: Map<Seq<char>, u64>,
    multiplier: u64,
) -> CountryInsert {
    let code = first_currency_code(p.currencies);
    let (rate, gdp) = match code {
        Some(c) => if rates.contains_key(c@) {
            (
                Some(rates[c@]),
                Some(gdp_estimate(p.population as int, multiplier as int, rates[c@] as int) as i128),
            )
        } else {
            (None, None)
        },
        None => (None, Some(0i128)),
    };
    CountryInsert {
        name: p.name,
        capital: p.capital,
        region: p.region,
        population: p.population,
        currency_code: code,
        exchange_rate: rate,
        estimated_gdp: gdp,
        flag_url: p.flag,
    }
}

/// `rec` is what `p` yields under `rates` for some multiplier in range.
pub open spec fn reconciled_with_some_multiplier(
    rec: CountryInsert,
    p: CountryApiResponse,
    rates: Map<Seq<char>, u64>,
) -> bool {
    exists|m: u64| MIN_MULTIPLIER <= m <= MAX_MULTIPLIER && rec == #[trigger] reconciled(p, rates, m)
}

/// The rules of a reconciled record: no currency code gives a GDP of exactly
/// zero and no rate; a code without a rate gives neither; a code with a rate
/// gives that rate and, for a non-negative population, a GDP between the
/// estimates for the smallest and the largest multiplier.
pub open spec fn follows_gdp_rules(
    r: CountryInsert,
    p: CountryApiResponse,
    rates: Map<Seq<char>, u64>,
) -> bool {
    match first_currency_code(p.currencies) {
        None => r.estimated_gdp == Some(0i128) && r.exchange_rate is None,
        Some(c) => if !rates.contains_key(c@) {
            r.estimated_gdp is None && r.exchange_rate is None
        } else {
            r.exchange_rate == Some(rates[c@]) && (p.population >= 0 ==> gdp_within_bounds(
                r.estimated_gdp,
                p.population as int,
                rates[c@] as int,
            ))
        },
    }
}

/// `gdp` is present and lies between the estimates for the smallest and the
/// largest multiplier, both included.
pub open spec fn gdp_within_bounds(gdp: Option<i128>, population: int, rate: int) -> bool {
    match gdp {
        Some(g) => gdp_estimate(population, MIN_MULTIPLIER as int, rate) <= g <= gdp_estimate(
            population,
            MAX_MULTIPLIER as int,
            rate,
        ),
        None => false,
    }
}

/// The currency code of the first listed currency, if the list is present
/// and non-empty.
pub fn select_currency_code(currencies: &Option<Vec<Currency>>) -> (r: Option<String>)
    ensures
        r == first_currency_code(*currencies),
{
    match currencies {
        Some(v) => {
            if v.len() == 0 {
                None
            } else {
                clone_opt_string(&v[0].code)
            }
        },
        None => None,
    }
}

/// The GDP estimate of a country, see `gdp_estimate`.
pub fn estimate_gdp(population: i64, multiplier: u64, rate: u64) -> (r: i128)
    requires
        multiplier <= MAX_MULTIPLIER,
        rate > 0,
    ensures
        r == gdp_estimate(population as int, multiplier as int, rate as int),
{
    let num: u128 = if population >= 0 {
        population as u128
    } else {
        (-(population as i128)) as u128
    };
    proof {
        lemma_mul_inequality(num as int, 0x8000_0000_0000_0000, multiplier as int);
        lemma_mul_inequality(multiplier as int, MAX_MULTIPLIER as int, num as int);
        assert(num * multiplier <= 0x8000_0000_0000_0000 * 2_000_000) by (nonlinear_arith)
            requires num <= 0x8000_0000_0000_0000, multiplier <= 2_000_000;
        assert(num * multiplier * 1_000_000 <= 0x8000_0000_0000_0000 * 2_000_000 * 1_000_000)
            by (nonlinear_arith)
            requires num * multiplier <= 0x8000_0000_0000_0000 * 2_000_000;
        assert((MULTIPLIER_SCALE as int) * (rate as int) <= 1000 * 0xffff_ffff_ffff_ffff)
            by (nonlinear_arith)
            requires rate <= 0xffff_ffff_ffff_ffff;
        assert((MULTIPLIER_SCALE as int) * (rate as int) > 0) by (nonlinear_arith)
            requires rate > 0;
    }
    let numerator: u128 = num * (multiplier as u128) * (RATE_SCALE as u128);
    let denominator: u128 = (MULTIPLIER_SCALE as u128) * (rate as u128);
    let q: u128 = numerator / denominator;
    proof {
        lemma_div_is_ordered(numerator as int, 0x8000_0000_0000_0000int * 2_000_000 * 1_000_000, denominator as int);
        assert((0x8000_0000_0000_0000int * 2_000_000 * 1_000_000) / (denominator as int)
            <= 0x8000_0000_0000_0000int * 2_000_000 * 1_000_000) by (nonlinear_arith)
            requires denominator >= 1;
    }
    if population >= 0 {
        q as i128
    } else {
        -(q as i128)
    }
}

/// Derives a storage-ready record from a directory entry, the rate mapping and
/// a GDP multiplier in thousandths.
pub fn reconcile_country(
    country_api: &CountryApiResponse,
    rates: &ExchangeRateApiResponse,
    multiplier: u64,
) -> (r: CountryInsert)
    requires
        rates.wf(),
        multiplier <= MAX_MULTIPLIER,
    ensures
        r == reconciled(*country_api, rates@, multiplier),
{
    let currency_code = select_currency_code(&country_api.currencies);
    let (exchange_rate, estimated_gdp) = match &currency_code {
        Some(code) => match rates.get(code) {
            Some(rate) => (Some(rate), Some(estimate_gdp(country_api.population, multiplier, rate))),
            None => (None, None),
        },
        None => (None, Some(0i128)),
    };
    CountryInsert {
        name: country_api.name.clone(),
        capital: clone_opt_string(&country_api.capital),
        region: clone_opt_string(&country_api.region),
        population: country_api.population,
        currency_code,
        exchange_rate,
        estimated_gdp,
        flag_url: clone_opt_string(&country_api.flag),
    }
}

/// Relies on rand's `thread_rng` and `Rng::gen_range`: a value drawn from the
/// inclusive range it is given.
#[verifier::external_body]
fn draw_multiplier() -> (r: u64)
    ensures
        MIN_MULTIPLIER <= r <= MAX_MULTIPLIER,
{
    rand::thread_rng().gen_range(MIN_MULTIPLIER..=MAX_MULTIPLIER)
}

/// Derives a storage-ready record with a freshly drawn GDP multiplier.
pub fn process_country(country_api: &CountryApiResponse, rates: &ExchangeRateApiResponse) -> (r:
    CountryInsert)
    requires
        rates.wf(),
    ensures
        reconciled_with_some_multiplier(r, *country_api, rates@),
        follows_gdp_rules(r, *country_api, rates@),
{
    let m = draw_multiplier();
    let r = reconcile_country(country_api, rates, m);
    proof {
        lemma_reconciled_follows_gdp_rules(r, *country_api, rates@);
    }
    r
}

/// For a non-negative population the estimate grows with the multiplier.
pub proof fn lemma_gdp_estimate_monotonic(population: int, m1: int, m2: int, rate: int)
    requires
        population >= 0,
        0 <= m1 <= m2,
        rate > 0,
    ensures
        gdp_estimate(population, m1, rate) <= gdp_estimate(population, m2, rate),
{
    assert(population * m1 * RATE_SCALE <= population * m2 * RATE_SCALE) by (nonlinear_arith)
        requires population >= 0, m1 <= m2;
    assert(MULTIPLIER_SCALE * rate > 0) by (nonlinear_arith)
        requires rate > 0;
    lemma_div_is_ordered(
        population * m1 * RATE_SCALE,
        population * m2 * RATE_SCALE,
        MULTIPLIER_SCALE * rate,
    );
}

} // verus!

verus! {

/// Reconciling the same directory entry under the same rates twice yields
/// records that agree on every field but the GDP estimate, whatever
/// multipliers were drawn.
pub proof fn lemma_identity_fields_stable(
    p: CountryApiResponse,
    rates: Map<Seq<char>, u64>,
    r1: CountryInsert,
    r2: CountryInsert,
)
    requires
        reconciled_with_some_multiplier(r1, p, rates),
        reconciled_with_some_multiplier(r2, p, rates),
    ensures
        r1.name == r2.name,
        r1.capital == r2.capital,
        r1.region == r2.region,
        r1.population == r2.population,
        r1.currency_code == r2.currency_code,
        r1.exchange_rate == r2.exchange_rate,
        r1.flag_url == r2.flag_url,
        r1.estimated_gdp is Some <==> r2.estimated_gdp is Some,
{
    let m1 = choose|m: u64| MIN_MULTIPLIER <= m <= MAX_MULTIPLIER && r1 == #[trigger] reconciled(p, rates, m);
    let m2 = choose|m: u64| MIN_MULTIPLIER <= m <= MAX_MULTIPLIER && r2 == #[trigger] reconciled(p, rates, m);
    assert(r1 == reconciled(p, rates, m1));
    assert(r2 == reconciled(p, rates, m2));
}

} // verus!

verus! {

/// Every record reconciled with a multiplier in range follows the GDP rules,
/// whichever multiplier was drawn.
pub proof fn lemma_reconciled_follows_gdp_rules(
    r: CountryInsert,
    p: CountryApiResponse,
    rates: Map<Seq<char>, u64>,
)
    requires
        reconciled_with_some_multiplier(r, p, rates),
        forall|k: Seq<char>| #[trigger] rates.contains_key(k) ==> rates[k] > 0,
    ensures
        follows_gdp_rules(r, p, rates),
{
    let m = choose|m: u64| MIN_MULTIPLIER <= m <= MAX_MULTIPLIER && r == #[trigger] reconciled(p, rates, m);
    assert(r == reconciled(p, rates, m));
    if let Some(c) = first_currency_code(p.currencies) {
        if rates.contains_key(c@) && p.population >= 0 {
            lemma_gdp_estimate_monotonic(p.population as int, MIN_MULTIPLIER as int, m as int, rates[c@] as int);
            lemma_gdp_estimate_monotonic(p.population as int, m as int, MAX_MULTIPLIER as int, rates[c@] as int);
        }
    }
}

} // verus!
