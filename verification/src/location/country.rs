//! Countries served, with their ISO codes, names and regions.
use vstd::prelude::*;

verus! {

/// A world region.
#[derive(Clone, Copy, Debug, PartialEq, Eq, Structural)]
pub enum Region {
    Europe,
}

/// A country served.
#[derive(Clone, Copy, Debug, PartialEq, Eq, Structural)]
pub enum Country {
    France,
    Germany,
    Luxembourg,
    Monaco,
    Spain,
    UnitedKingdom,
}

/// ISO 3166-1 alpha-2 code of a country.
pub open spec fn country_code(c: Country) -> Seq<char> {
    match c {
        Country::France => "FR"@,
        Country::Germany => "DE"@,
        Country::Luxembourg => "LU"@,
        Country::Monaco => "MC"@,
        Country::Spain => "ES"@,
        Country::UnitedKingdom => "GB"@,
    }
}

/// Official short name of a country.
pub open spec fn country_name(c: Country) -> Seq<char> {
    match c {
        Country::France => "France"@,
        Country::Germany => "Germany"@,
        Country::Luxembourg => "Luxembourg"@,
        Country::Monaco => "Monaco"@,
        Country::Spain => "Spain"@,
        Country::UnitedKingdom => "United Kingdom of Great Britain and Northern Ireland"@,
    }
}

impl Country {
    pub fn get_code(&self) -> (s: &'static str)
        ensures
            s@ == country_code(*self),
    {
        match self {
            Country::France => "FR",
            Country::Germany => "DE",
            Country::Luxembourg => "LU",
            Country::Monaco => "MC",
            Country::Spain => "ES",
            Country::UnitedKingdom => "GB",
        }
    }

    pub fn get_name(&self) -> (s: &'static str)
        ensures
            s@ == country_name(*self),
    {
        match self {
            Country::France => "France",
            Country::Germany => "Germany",
            Country::Luxembourg => "Luxembourg",
            Country::Monaco => "Monaco",
            Country::Spain => "Spain",
            Country::UnitedKingdom => "United Kingdom of Great Britain and Northern Ireland",
        }
    }

    /// Every country served lies in Europe.
    pub fn get_region(&self) -> (r: Region)
        ensures
            r == Region::Europe,
    {
        match self {
            Country::France | Country::Germany | Country::Luxembourg | Country::Monaco | Country::Spain
            | Country::UnitedKingdom => Region::Europe,
        }
    }
}

} // verus!
