use vstd::prelude::*;
use crate::handlers::{sort_order_of, SortOrder};

verus! {

/// The `ORDER BY` clause of a sort order, with its leading space.
pub open spec fn order_clause(sort: Option<SortOrder>) -> Seq<char> {
    match sort {
        Some(SortOrder::GdpDesc) => " ORDER BY estimated_gdp DESC"@,
        Some(SortOrder::GdpAsc) => " ORDER BY estimated_gdp ASC"@,
        Some(SortOrder::PopulationDesc) => " ORDER BY population DESC"@,
        Some(SortOrder::PopulationAsc) => " ORDER BY population ASC"@,
        None => Seq::empty(),
    }
}

/// The statement that lists countries: every column, an exact-match
/// condition for each filter given (region first), then the sort clause.
pub open spec fn list_sql(by_region: bool, by_currency: bool, sort: Option<SortOrder>) -> Seq<
    char,
> {
    "SELECT id, name, capital, region, population, currency_code, exchange_rate, estimated_gdp, flag_url, last_refreshed_at FROM countries WHERE 1=1"@
        + (if by_region { " AND region = ?"@ } else { Seq::empty() })
        + (if by_currency { " AND currency_code = ?"@ } else { Seq::empty() })
        + order_clause(sort)
}

/// The values bound to the statement's placeholders, in order.
pub open spec fn list_bindings(region: Option<String>, currency: Option<String>) -> Seq<String> {
    (match region {
        Some(r) => seq![r],
        None => Seq::empty(),
    }) + (match currency {
        Some(c) => seq![c],
        None => Seq::empty(),
    })
}

/// The listing statement for the given filters and sort key, and the values
/// for its placeholders. An unrecognised sort key adds no clause.
pub fn find_all_query(region: Option<String>, currency: Option<String>, sort: Option<String>) -> (r: (
    String,
    Vec<String>,
))
    ensures
        r.0@ == list_sql(
            region is Some,
            currency is Some,
            match sort {
                Some(s) => sort_order_of(s@),
                None => None,
            },
        ),
        r.1@ == list_bindings(region, currency),
{
    let ghost region0 = region;
    let ghost currency0 = currency;
    let by_region = region.is_some();
    let by_currency = currency.is_some();
    let mut sql = String::from_str(
        "SELECT id, name, capital, region, population, currency_code, exchange_rate, estimated_gdp, flag_url, last_refreshed_at FROM countries WHERE 1=1",
    );
    let mut bindings: Vec<String> = Vec::new();
    if let Some(r) = region {
        sql.append(" AND region = ?");
        bindings.push(r);
    }
    if let Some(c) = currency {
        sql.append(" AND currency_code = ?");
        bindings.push(c);
    }
    let order = match &sort {
        Some(s) => SortOrder::parse(s),
        None => None,
    };
    match order {
        Some(SortOrder::GdpDesc) => sql.append(" ORDER BY estimated_gdp DESC"),
        Some(SortOrder::GdpAsc) => sql.append(" ORDER BY estimated_gdp ASC"),
        Some(SortOrder::PopulationDesc) => sql.append(" ORDER BY population DESC"),
        Some(SortOrder::PopulationAsc) => sql.append(" ORDER BY population ASC"),
        None => {},
    }
    proof {
        assert(bindings@ =~= list_bindings(region0, currency0));
        assert(sql@ =~= list_sql(by_region, by_currency, order));
    }
    (sql, bindings)
}

} // verus!
