//! Settings, resolved once at startup from the process environment.
use vstd::prelude::*;
use crate::num::{i32_value, parse_i32, parse_u64, u64_value};
use crate::text::{decimal_text, push_decimal, push_text};

verus! {

pub const DEFAULT_PORT: i32 = 8080;

pub const DEFAULT_CONNECT_TIMEOUT_MILLIS: u64 = 30000;

/// The settings of the gateway; read-only once built.
pub struct AppConfig {
    pub host: String,
    pub port: i32,
    /// Upstream connect timeout, in milliseconds.
    pub client_connect_timeout_millis: u64,
    pub google_search_api_engine_id: String,
    pub google_search_api_key: String,
}

/// What the environment holds for each setting; `None` where a variable is unset.
pub struct EnvVars {
    pub host: Option<String>,
    pub port: Option<String>,
    pub connect_timeout_millis: Option<String>,
    pub engine_id: Option<String>,
    pub api_key: Option<String>,
}

/// A numeric variable that is set but does not parse.
#[derive(Debug, PartialEq, Eq, Structural)]
pub enum ConfigError {
    InvalidConnectTimeout,
    InvalidPort,
}

pub open spec fn timeout_ok(v: EnvVars) -> bool {
    match v.connect_timeout_millis {
        Some(t) => u64_value(t@) is Some,
        None => true,
    }
}

pub open spec fn port_ok(v: EnvVars) -> bool {
    match v.port {
        Some(p) => i32_value(p@) is Some,
        None => true,
    }
}

/// The text of a variable, or the default where it is unset.
pub open spec fn text_or(o: Option<String>, default: Seq<char>) -> Seq<char> {
    match o {
        Some(s) => s@,
        None => default,
    }
}

pub open spec fn port_of(v: EnvVars) -> i32 {
    match v.port {
        Some(p) => i32_value(p@)->0,
        None => DEFAULT_PORT,
    }
}

pub open spec fn timeout_of(v: EnvVars) -> u64 {
    match v.connect_timeout_millis {
        Some(t) => u64_value(t@)->0,
        None => DEFAULT_CONNECT_TIMEOUT_MILLIS,
    }
}

/// Every variable unset.
pub open spec fn is_empty_env(v: EnvVars) -> bool {
    &&& v.host is None
    &&& v.port is None
    &&& v.connect_timeout_millis is None
    &&& v.engine_id is None
    &&& v.api_key is None
}

/// An integer in decimal, with a `-` where it is negative.
pub open spec fn signed_text(n: int) -> Seq<char> {
    if n < 0 {
        "-"@ + decimal_text((-n) as nat)
    } else {
        decimal_text(n as nat)
    }
}

fn text_or_default(o: &Option<String>, default: &str) -> (r: String)
    ensures
        r@ == text_or(*o, default@),
{
    match o {
        Some(s) => s.clone(),
        None => default.to_owned(),
    }
}

impl AppConfig {
    /// Resolves each setting: the variable where it is set and parses, else the
    /// default. A numeric variable that is set and does not parse is an error,
    /// the connect timeout being checked before the port.
    pub fn from_vars(vars: &EnvVars) -> (r: Result<AppConfig, ConfigError>)
        ensures
            r is Ok <==> timeout_ok(*vars) && port_ok(*vars),
            r matches Err(ConfigError::InvalidConnectTimeout) <==> !timeout_ok(*vars),
            r matches Err(ConfigError::InvalidPort) <==> timeout_ok(*vars) && !port_ok(*vars),
            r matches Ok(c) ==> {
                &&& c.host@ == text_or(vars.host, "0.0.0.0"@)
                &&& c.port == port_of(*vars)
                &&& c.client_connect_timeout_millis == timeout_of(*vars)
                &&& c.google_search_api_engine_id@ == text_or(vars.engine_id, ""@)
                &&& c.google_search_api_key@ == text_or(vars.api_key, ""@)
            },
            is_empty_env(*vars) ==> (r matches Ok(c) && c.host@ == "0.0.0.0"@ && c.port == 8080
                && c.client_connect_timeout_millis == 30000),
    {
        let timeout: u64 = match &vars.connect_timeout_millis {
            Some(t) => match parse_u64(t.as_str()) {
                Some(v) => v,
                None => return Err(ConfigError::InvalidConnectTimeout),
            },
            None => DEFAULT_CONNECT_TIMEOUT_MILLIS,
        };
        let port: i32 = match &vars.port {
            Some(p) => match parse_i32(p.as_str()) {
                Some(v) => v,
                None => return Err(ConfigError::InvalidPort),
            },
            None => DEFAULT_PORT,
        };
        proof {
            reveal_strlit("0.0.0.0");
        }
        Ok(AppConfig {
            host: text_or_default(&vars.host, "0.0.0.0"),
            port,
            client_connect_timeout_millis: timeout,
            google_search_api_engine_id: text_or_default(&vars.engine_id, ""),
            google_search_api_key: text_or_default(&vars.api_key, ""),
        })
    }

    /// The address the server listens on: host, a colon, and the port.
    pub fn bind_address(&self) -> (r: String)
        ensures
            r@ == self.host@ + ":"@ + signed_text(self.port as int),
    {
        let mut s = String::new();
        push_text(&mut s, self.host.as_str());
        push_text(&mut s, ":");
        let ghost before = s@;
        if self.port < 0 {
            push_text(&mut s, "-");
            push_decimal(&mut s, (0 - (self.port as i64)) as u64);
            assert(s@ =~= before + signed_text(self.port as int));
        } else {
            push_decimal(&mut s, self.port as u64);
        }
        assert(Seq::<char>::empty() + self.host@ =~= self.host@);
        s
    }
}

} // verus!
