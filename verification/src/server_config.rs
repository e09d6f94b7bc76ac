//! Settings of the minimal API server: where it listens and its database.
use vstd::prelude::*;
use vstd::string::StringExecFns;

verus! {

/// Listening address and database URL.
pub struct Config {
    pub address: String,
    pub database_url: String,
}

impl Config {
    /// The settings from the required `ADDRESS` and `DATABASE_URL`; the
    /// first that is missing is named in the error.
    pub fn from_values(address: Option<String>, database_url: Option<String>) -> (r: Result<Config, String>)
        ensures
            r is Ok <==> address is Some && database_url is Some,
            r matches Err(m) ==> if address is None {
                m@ == "ADDRESS is required in the root .env"@
            } else {
                m@ == "DATABASE_URL is required in the root .env"@
            },
            r matches Ok(c) ==> Some(c.database_url) == database_url && Some(c.address) == address,
    {
        let address = match address {
            Some(a) => a,
            None => return Err(String::from_str("ADDRESS is required in the root .env")),
        };
        match database_url {
            Some(d) => Ok(Config { address, database_url: d }),
            None => Err(String::from_str("DATABASE_URL is required in the root .env")),
        }
    }
}

} // verus!
