//! Settings of the service, as read from the environment by the binary.
use vstd::prelude::*;
use vstd::string::StringExecFns;
use crate::text::{starts_with, trim_end_char, trim_end_char_seq, parse_u32, parse_i64, parsed_u32, parsed_i64};

verus! {

/// Settings of the token and tag service.
pub struct Config {
    pub address: String,
    pub database_url: String,
    pub api_domain: String,
    pub token_secret: String,
    pub admin_key: String,
    pub db_wipe_token: Option<String>,
    pub tag_signing_master: String,
    pub default_scan_token_batch_size: u32,
    pub default_scan_token_ttl_seconds: i64,
}

pub open spec fn has_prefix(s: Seq<char>, p: Seq<char>) -> bool {
    p.len() <= s.len() && s.subrange(0, p.len() as int) == p
}

/// Whether a domain already names its scheme.
pub open spec fn has_http_scheme(d: Seq<char>) -> bool {
    has_prefix(d, "http://"@) || has_prefix(d, "https://"@)
}

/// The base of scan URLs for an API domain: the domain without trailing
/// slashes, prefixed with `https://` unless it names its scheme.
pub open spec fn scan_base_url_of(api_domain: Seq<char>) -> Seq<char> {
    if has_http_scheme(api_domain) {
        trim_end_char_seq(api_domain, '/')
    } else {
        "https://"@ + trim_end_char_seq(api_domain, '/')
    }
}

impl Config {
    /// The base of the scan URLs written to tags.
    pub fn scan_base_url(&self) -> (r: String)
        ensures
            r@ == scan_base_url_of(self.api_domain@),
    {
        let domain = self.api_domain.as_str();
        if starts_with(domain, "http://") || starts_with(domain, "https://") {
            String::from_str(trim_end_char(domain, '/'))
        } else {
            String::from_str("https://").concat(trim_end_char(domain, '/'))
        }
    }
}

/// The environment variables that the settings are read from, each `None`
/// when it is unset (or not Unicode).
pub struct EnvValues {
    pub address: Option<String>,
    pub database_url: Option<String>,
    pub api_domain: Option<String>,
    pub token_secret: Option<String>,
    pub hmac_secret: Option<String>,
    pub scan_token_secret: Option<String>,
    pub admin_key: Option<String>,
    pub admin_api_key: Option<String>,
    pub db_wipe_token: Option<String>,
    pub wipe_db_token: Option<String>,
    pub tag_signing_master: Option<String>,
    pub master_key_hex: Option<String>,
    pub default_scan_token_batch_size: Option<String>,
    pub default_scan_token_ttl_seconds: Option<String>,
}

/// The first of two variables that is set.
pub open spec fn first_set(a: Option<String>, b: Option<String>) -> Option<String> {
    match a {
        Some(x) => Some(x),
        None => b,
    }
}

/// A number read from a variable, or `default` when it is unset or does
/// not parse.
pub open spec fn u32_or(v: Option<String>, default: u32) -> u32 {
    match v {
        Some(t) => match parsed_u32(t@) { Some(n) => n, None => default },
        None => default,
    }
}

pub open spec fn i64_or(v: Option<String>, default: i64) -> i64 {
    match v {
        Some(t) => match parsed_i64(t@) { Some(n) => n, None => default },
        None => default,
    }
}

/// The error of the first required setting that is missing, if any.
pub open spec fn missing_setting(env: EnvValues) -> Option<Seq<char>> {
    if env.address is None {
        Some("ADDRESS is required in the root .env"@)
    } else if env.database_url is None {
        Some("DATABASE_URL is required in the root .env"@)
    } else if env.api_domain is None {
        Some("API_DOMAIN is required in the root .env"@)
    } else if first_set(env.token_secret, first_set(env.hmac_secret, env.scan_token_secret)) is None {
        Some("TOKEN_SECRET or legacy SCAN_TOKEN_SECRET/HMAC_SECRET is required in the root .env"@)
    } else if first_set(env.admin_key, env.admin_api_key) is None {
        Some("ADMIN_KEY is required in the root .env"@)
    } else if first_set(env.tag_signing_master, env.master_key_hex) is None {
        Some("TAG_SIGNING_MASTER is required in the root .env"@)
    } else {
        None
    }
}

fn first_of(a: Option<String>, b: Option<String>) -> (r: Option<String>)
    ensures
        r == first_set(a, b),
{
    match a {
        Some(x) => Some(x),
        None => b,
    }
}

fn u32_setting(v: &Option<String>, default: u32) -> (r: u32)
    ensures
        r == u32_or(*v, default),
{
    match v {
        Some(t) => match parse_u32(t.as_str()) { Some(n) => n, None => default },
        None => default,
    }
}

fn i64_setting(v: &Option<String>, default: i64) -> (r: i64)
    ensures
        r == i64_or(*v, default),
{
    match v {
        Some(t) => match parse_i64(t.as_str()) { Some(n) => n, None => default },
        None => default,
    }
}

impl Config {
    /// The settings from the variables: the required `ADDRESS`,
    /// `DATABASE_URL` and `API_DOMAIN`, the secret from `TOKEN_SECRET`, else `HMAC_SECRET`, else
    /// `SCAN_TOKEN_SECRET`, the admin key from `ADMIN_KEY`, else
    /// `ADMIN_API_KEY`, the optional wipe token from `DB_WIPE_TOKEN`, else
    /// `WIPE_DB_TOKEN`, the master from `TAG_SIGNING_MASTER`, else
    /// `MASTER_KEY_HEX`, and the batch defaults (3 tokens, a day) unless set
    /// to numbers. The first required value that is missing is named in the
    /// error.
    pub fn from_values(env: EnvValues) -> (r: Result<Config, String>)
        ensures
            match missing_setting(env) {
                Some(msg) => r matches Err(m) && m@ == msg,
                None => r is Ok,
            },
            r matches Ok(c) ==> {
                &&& Some(c.address) == env.address
                &&& Some(c.database_url) == env.database_url
                &&& Some(c.api_domain) == env.api_domain
                &&& Some(c.token_secret) == first_set(env.token_secret, first_set(env.hmac_secret, env.scan_token_secret))
                &&& Some(c.admin_key) == first_set(env.admin_key, env.admin_api_key)
                &&& c.db_wipe_token == first_set(env.db_wipe_token, env.wipe_db_token)
                &&& Some(c.tag_signing_master) == first_set(env.tag_signing_master, env.master_key_hex)
                &&& c.default_scan_token_batch_size == u32_or(env.default_scan_token_batch_size, 3)
                &&& c.default_scan_token_ttl_seconds == i64_or(env.default_scan_token_ttl_seconds, 86400)
            },
    {
        let default_scan_token_batch_size = u32_setting(&env.default_scan_token_batch_size, 3);
        let default_scan_token_ttl_seconds = i64_setting(&env.default_scan_token_ttl_seconds, 86400);
        let address = match env.address {
            Some(a) => a,
            None => return Err(String::from_str("ADDRESS is required in the root .env")),
        };
        let database_url = match env.database_url {
            Some(d) => d,
            None => return Err(String::from_str("DATABASE_URL is required in the root .env")),
        };
        let api_domain = match env.api_domain {
            Some(a) => a,
            None => return Err(String::from_str("API_DOMAIN is required in the root .env")),
        };
        let token_secret = match first_of(env.token_secret, first_of(env.hmac_secret, env.scan_token_secret)) {
            Some(t) => t,
            None => return Err(String::from_str(
                "TOKEN_SECRET or legacy SCAN_TOKEN_SECRET/HMAC_SECRET is required in the root .env")),
        };
        let admin_key = match first_of(env.admin_key, env.admin_api_key) {
            Some(k) => k,
            None => return Err(String::from_str("ADMIN_KEY is required in the root .env")),
        };
        let db_wipe_token = first_of(env.db_wipe_token, env.wipe_db_token);
        let tag_signing_master = match first_of(env.tag_signing_master, env.master_key_hex) {
            Some(m) => m,
            None => return Err(String::from_str("TAG_SIGNING_MASTER is required in the root .env")),
        };
        Ok(Config {
            address,
            database_url,
            api_domain,
            token_secret,
            admin_key,
            db_wipe_token,
            tag_signing_master,
            default_scan_token_batch_size,
            default_scan_token_ttl_seconds,
        })
    }
}

} // verus!
