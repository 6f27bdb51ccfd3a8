//! Where the weather is asked for, and the token that says so in a query.

use crate::text::{decimal, decimal_text};
use vstd::prelude::*;
use vstd::string::StringExecFns;

verus! {

/// One way of saying where. `Coordinate` holds latitude and longitude, each
/// in decimal notation.
#[derive(Clone, Debug, PartialEq, Eq)]
pub enum Location {
    Coordinate(String, String),
    City(String),
    USZip(usize),
    Post(String),
    Metar(String),
    Iata(String),
    Auto,
    IP(String),
    SearchID(usize),
}

impl Location {
    /// The query token of a location.
    pub open spec fn token(self) -> Seq<char> {
        match self {
            Location::Coordinate(latitude, longitude) => latitude@ + ","@ + longitude@,
            Location::City(name) => name@,
            Location::USZip(zip) => decimal(zip as nat),
            Location::Post(code) => code@,
            Location::Metar(code) => "metar:"@ + code@,
            Location::Iata(code) => "iata:"@ + code@,
            Location::Auto => "auto:ip"@,
            Location::IP(address) => address@,
            Location::SearchID(id) => "id:"@ + decimal(id as nat),
        }
    }

    /// Writes the query token of a location.
    pub fn render(&self) -> (r: String)
        ensures
            r@ == self.token(),
    {
        match self {
            Location::Coordinate(latitude, longitude) => {
                let mut r = latitude.clone();
                r.append(",");
                r.append(longitude.as_str());
                r
            },
            Location::City(name) => name.clone(),
            Location::USZip(zip) => decimal_text(*zip as u64),
            Location::Post(code) => code.clone(),
            Location::Metar(code) => {
                let mut r = String::from_str("metar:");
                r.append(code.as_str());
                r
            },
            Location::Iata(code) => {
                let mut r = String::from_str("iata:");
                r.append(code.as_str());
                r
            },
            Location::Auto => String::from_str("auto:ip"),
            Location::IP(address) => address.clone(),
            Location::SearchID(id) => {
                let mut r = String::from_str("id:");
                let digits = decimal_text(*id as u64);
                r.append(digits.as_str());
                r
            },
        }
    }
}

impl Default for Location {
    fn default() -> (r: Location)
        ensures
            r == Location::Auto,
    {
        Location::Auto
    }
}

} // verus!
