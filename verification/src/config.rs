//! The service's settings, read from the environment: which are required,
//! what the others default to, and which values are refused.
use vstd::prelude::*;
use vstd::string::StringSliceAdditionalSpecFns;
use vstd::utf8::encode_utf8;

use crate::text::{chars_of, concat2, eq_ignore_ascii_case, owned, parse_u16, parse_u16_spec};

verus! {

/// The shortest JWT secret accepted, in bytes.
pub const MIN_JWT_SECRET_BYTES: usize = 32;

/// The port served when none is set.
pub const DEFAULT_PORT: u16 = 8080;

/// An IP address by its parts: four bytes, or eight 16-bit groups.
#[derive(Clone, Copy, Debug, PartialEq, Eq)]
pub enum IpAddress {
    V4(u8, u8, u8, u8),
    V6(u16, u16, u16, u16, u16, u16, u16, u16),
}

/// The address served on when none is set: 0.0.0.0.
pub fn default_host() -> (r: IpAddress)
    ensures
        r == IpAddress::V4(0, 0, 0, 0),
{
    IpAddress::V4(0, 0, 0, 0)
}

/// The vector store used when none is set.
pub const DEFAULT_VECTOR_DB_URL: &'static str = "http://localhost:6334";

/// The JWT secret, once it is known to be long enough.
pub fn validate_jwt_secret(jwt_secret: String) -> (r: String)
    requires
        encode_utf8(jwt_secret@).len() >= 32,
    ensures
        r == jwt_secret,
{
    jwt_secret
}

/// Where the settings were read from: a `.env` file, or the process
/// environment when there is none. The messages for a missing setting
/// differ between the two.
#[derive(Clone, Copy, Debug, PartialEq, Eq)]
pub enum ConfigSource {
    DotEnv,
    Process,
}

/// The raw settings, each as found (or not). `HOST` is given read as an
/// IP address, or as its text when it does not read as one.
#[derive(Debug)]
pub struct EnvVars {
    pub admin_password: Option<String>,
    pub jwt_secret: Option<String>,
    pub control_panel_fqdn: Option<String>,
    pub control_panel_port: Option<String>,
    pub host: Option<Result<IpAddress, String>>,
    pub port: Option<String>,
    pub vector_db_url: Option<String>,
    pub mcp_namespace: Option<String>,
    pub mcp_label_selector: Option<String>,
    pub trial: Option<String>,
}

/// The service's settings.
#[derive(Debug)]
pub struct RunTimeConfig {
    pub admin_password: String,
    pub jwt_secret: String,
    pub control_panel_fqdn: String,
    pub control_panel_port: String,
    pub host: IpAddress,
    pub port: u16,
    pub vector_db_url: String,
    pub mcp_namespace: String,
    pub mcp_label_selector: String,
    pub is_trial: bool,
}

/// Why the settings cannot be used.
#[derive(Debug)]
pub enum ConfigError {
    /// A required setting is missing; the message names it.
    Missing(String),
    /// The JWT secret is shorter than 32 bytes.
    ShortJwtSecret,
    /// `HOST` is not an IP address; its text is given.
    InvalidHost(String),
    /// `PORT` is not a port number; its text is given.
    InvalidPort(String),
}

/// The message for a missing required setting.
pub open spec fn missing_message(name: Seq<char>, source: ConfigSource) -> Seq<char> {
    match source {
        ConfigSource::DotEnv => name + " not set"@,
        ConfigSource::Process => name + " is not set"@,
    }
}

/// The abstract content of a [`ConfigError`].
pub enum ConfigProblem {
    Missing(Seq<char>),
    ShortJwtSecret,
    InvalidHost(Seq<char>),
    InvalidPort(Seq<char>),
}

/// The abstract content of a configuration error.
pub open spec fn problem_of(e: ConfigError) -> ConfigProblem {
    match e {
        ConfigError::Missing(m) => ConfigProblem::Missing(m@),
        ConfigError::ShortJwtSecret => ConfigProblem::ShortJwtSecret,
        ConfigError::InvalidHost(h) => ConfigProblem::InvalidHost(h@),
        ConfigError::InvalidPort(p) => ConfigProblem::InvalidPort(p@),
    }
}

/// The first problem with the raw settings, in the order they are read.
pub open spec fn config_problem(vars: EnvVars, source: ConfigSource) -> Option<ConfigProblem> {
    if vars.admin_password is None {
        Some(ConfigProblem::Missing(missing_message("ADMIN_PASSWORD"@, source)))
    } else if vars.jwt_secret is None {
        Some(ConfigProblem::Missing(missing_message("JWT_SECRET"@, source)))
    } else if encode_utf8(vars.jwt_secret->0@).len() < 32 {
        Some(ConfigProblem::ShortJwtSecret)
    } else if vars.control_panel_fqdn is None {
        Some(ConfigProblem::Missing(missing_message("SHAIDE_SERVER_UI_FQDN"@, source)))
    } else if vars.control_panel_port is None {
        Some(ConfigProblem::Missing(missing_message("SHAIDE_SERVER_UI_PORT"@, source)))
    } else if vars.host matches Some(Err(_)) {
        Some(ConfigProblem::InvalidHost(vars.host->0->Err_0@))
    } else if vars.port matches Some(p) && parse_u16_spec(p@) is None {
        Some(ConfigProblem::InvalidPort(vars.port->0@))
    } else {
        None
    }
}

/// A setting's value, or the text given when it is absent.
pub open spec fn or_default(v: Option<String>, default: Seq<char>) -> Seq<char> {
    match v {
        Some(s) => s@,
        None => default,
    }
}

/// Takes a setting, or the given default.
fn take_or(v: Option<String>, default: &str) -> (r: String)
    ensures
        r@ == or_default(v, default@),
{
    match v {
        Some(s) => s,
        None => owned(default),
    }
}

impl RunTimeConfig {
    /// Builds the settings from the raw values: the admin password, JWT
    /// secret (of at least 32 bytes), control panel address and port are
    /// required; a `HOST` that is no IP address is refused; the host defaults
    /// to 0.0.0.0, the port to 8080, the vector
    /// store to localhost:6334, the MCP namespace and selector to nothing;
    /// trial mode is on when `TRIAL` is "true" in any case.
    pub fn from_vars(vars: EnvVars, source: ConfigSource) -> (r: Result<RunTimeConfig, ConfigError>)
        ensures
            match config_problem(vars, source) {
                Some(p) => r matches Err(e) && problem_of(e) == p,
                None => r matches Ok(c) && {
                    &&& c.admin_password == vars.admin_password->0
                    &&& c.jwt_secret == vars.jwt_secret->0
                    &&& c.control_panel_fqdn == vars.control_panel_fqdn->0
                    &&& c.control_panel_port == vars.control_panel_port->0
                    &&& c.host == match vars.host {
                        Some(Ok(a)) => a,
                        _ => IpAddress::V4(0, 0, 0, 0),
                    }
                    &&& c.port == match vars.port {
                        Some(p) => parse_u16_spec(p@)->0,
                        None => 8080,
                    }
                    &&& c.vector_db_url@ == or_default(vars.vector_db_url, "http://localhost:6334"@)
                    &&& c.mcp_namespace@ == or_default(vars.mcp_namespace, Seq::empty())
                    &&& c.mcp_label_selector@ == or_default(vars.mcp_label_selector, Seq::empty())
                    &&& c.is_trial == match vars.trial {
                        Some(t) => eq_ignore_ascii_case(t@, "true"@),
                        None => false,
                    }
                },
            },
    {
        let suffix = match source {
            ConfigSource::DotEnv => " not set",
            ConfigSource::Process => " is not set",
        };
        let EnvVars {
            admin_password,
            jwt_secret,
            control_panel_fqdn,
            control_panel_port,
            host,
            port,
            vector_db_url,
            mcp_namespace,
            mcp_label_selector,
            trial,
        } = vars;
        let admin_password = match admin_password {
            Some(v) => v,
            None => return Err(ConfigError::Missing(concat2("ADMIN_PASSWORD", suffix))),
        };
        let jwt_secret = match jwt_secret {
            Some(v) => v,
            None => return Err(ConfigError::Missing(concat2("JWT_SECRET", suffix))),
        };
        let secret_text = jwt_secret.as_str();
        proof {
            assert(secret_text.spec_bytes() == encode_utf8(jwt_secret@));
        }
        if secret_text.as_bytes().len() < MIN_JWT_SECRET_BYTES {
            return Err(ConfigError::ShortJwtSecret);
        }
        let jwt_secret = validate_jwt_secret(jwt_secret);
        let control_panel_fqdn = match control_panel_fqdn {
            Some(v) => v,
            None => return Err(ConfigError::Missing(concat2("SHAIDE_SERVER_UI_FQDN", suffix))),
        };
        let control_panel_port = match control_panel_port {
            Some(v) => v,
            None => return Err(ConfigError::Missing(concat2("SHAIDE_SERVER_UI_PORT", suffix))),
        };
        let host = match host {
            Some(Ok(a)) => a,
            Some(Err(text)) => return Err(ConfigError::InvalidHost(text)),
            None => default_host(),
        };
        let port = match port {
            Some(p) => {
                let chars = chars_of(p.as_str());
                match parse_u16(&chars) {
                    Some(n) => n,
                    None => return Err(ConfigError::InvalidPort(p)),
                }
            },
            None => DEFAULT_PORT,
        };
        let vector_db_url = take_or(vector_db_url, DEFAULT_VECTOR_DB_URL);
        let mcp_namespace = take_or(mcp_namespace, "");
        let mcp_label_selector = take_or(mcp_label_selector, "");
        let is_trial = match trial {
            Some(t) => {
                let chars = chars_of(t.as_str());
                crate::text::eq_ignore_ascii_case_str(&chars, "true")
            },
            None => false,
        };
        proof {
            reveal_strlit("");
        }
        Ok(RunTimeConfig {
            admin_password,
            jwt_secret,
            control_panel_fqdn,
            control_panel_port,
            host,
            port,
            vector_db_url,
            mcp_namespace,
            mcp_label_selector,
            is_trial,
        })
    }
}

} // verus!
