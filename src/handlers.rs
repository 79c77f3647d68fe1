use vstd::prelude::*;
use crate::error::ApiError;
use crate::models::Country;

verus! {

/// The sort keys that a listing accepts.
#[derive(PartialEq, Eq, Structural, Clone, Copy, Debug)]
pub enum SortOrder {
    GdpDesc,
    GdpAsc,
    PopulationDesc,
    PopulationAsc,
}

/// The sort order that a sort parameter names, if it names one.
pub open spec fn sort_order_of(s: Seq<char>) -> Option<SortOrder> {
    if s == "gdp_desc"@ {
        Some(SortOrder::GdpDesc)
    } else if s == "gdp_asc"@ {
        Some(SortOrder::GdpAsc)
    } else if s == "population_desc"@ {
        Some(SortOrder::PopulationDesc)
    } else if s == "population_asc"@ {
        Some(SortOrder::PopulationAsc)
    } else {
        None
    }
}

impl SortOrder {
    /// Reads a sort parameter; an unrecognised one names no order.
    pub fn parse(s: &String) -> (r: Option<SortOrder>)
        ensures
            r == sort_order_of(s@),
    {
        if *s == String::from_str("gdp_desc") {
            Some(SortOrder::GdpDesc)
        } else if *s == String::from_str("gdp_asc") {
            Some(SortOrder::GdpAsc)
        } else if *s == String::from_str("population_desc") {
            Some(SortOrder::PopulationDesc)
        } else if *s == String::from_str("population_asc") {
            Some(SortOrder::PopulationAsc)
        } else {
            None
        }
    }
}

/// The filters and sort key of a listing; each filter is an exact match.
pub struct CountryQuery {
    pub region: Option<String>,
    pub currency: Option<String>,
    pub sort: Option<String>,
}

impl CountryQuery {
    /// The sort order asked for; an absent or unrecognised key gives none.
    pub fn sort_order(&self) -> (r: Option<SortOrder>)
        ensures
            r == (match self.sort {
                Some(s) => sort_order_of(s@),
                None => None,
            }),
    {
        match &self.sort {
            Some(s) => SortOrder::parse(s),
            None => None,
        }
    }
}

/// The answer to a successful refresh.
pub struct RefreshResponse {
    pub message: String,
    pub total_countries: i32,
    pub last_refreshed_at: String,
}

/// The answer to a successful delete.
pub struct DeleteResponse {
    pub message: String,
}

/// The outcome of deleting by exact name, given how many records the store
/// removed: not-found when it removed none.
pub fn delete_outcome(rows_affected: u64) -> (r: Result<DeleteResponse, ApiError>)
    ensures
        rows_affected == 0 <==> r == Err::<DeleteResponse, ApiError>(ApiError::NotFound),
        rows_affected > 0 ==> (r matches Ok(d) && d.message@ == "Country deleted successfully"@),
{
    if rows_affected == 0 {
        Err(ApiError::NotFound)
    } else {
        Ok(DeleteResponse { message: String::from_str("Country deleted successfully") })
    }
}

/// The outcome of a lookup by exact name: the record, or not-found.
pub fn lookup_outcome(found: Option<Country>) -> (r: Result<Country, ApiError>)
    ensures
        match found {
            Some(c) => r == Ok::<Country, ApiError>(c),
            None => r == Err::<Country, ApiError>(ApiError::NotFound),
        },
{
    match found {
        Some(c) => Ok(c),
        None => Err(ApiError::NotFound),
    }
}

} // verus!
