//! Resolved static configuration: which listener mode the process binds in,
//! where, and against which database. Resolution happens once at startup from
//! externally supplied values; anything malformed is fatal before the process
//! serves traffic, never defaulted silently.

use vstd::prelude::*;
use crate::render::str_eq;

verus! {

/// Bind host used when none is configured.
pub const DEFAULT_BIND_HOST: &'static str = "127.0.0.1";

/// Bind port used when none is configured.
pub const DEFAULT_BIND_PORT: u16 = 8080;

/// TLS private-key path used when TLS is enabled and no path is configured.
pub const DEFAULT_TLS_KEY_PATH: &'static str = "key.pem";

/// TLS certificate-chain path used when TLS is enabled and no path is
/// configured.
pub const DEFAULT_TLS_CERT_PATH: &'static str = "cert.pem";

/// The two listener modes, chosen once at startup and never re-evaluated.
#[derive(Debug, Clone, Copy, PartialEq, Eq, Structural)]
pub enum BindMode {
    /// A plain TCP listener.
    Plain,
    /// The same listener wrapped by TLS termination.
    Tls,
}

/// A startup configuration error; every variant is fatal before any listener
/// binds.
#[derive(Debug, PartialEq, Eq)]
pub enum ConfigError {
    /// No database connection string was supplied.
    MissingDatabaseUrl,
    /// The TLS-enabled flag was neither the recognized on nor off token; the
    /// offending token is carried for the diagnostic.
    InvalidTlsFlag(String),
    /// The bind port was not a decimal number a port can hold; the offending
    /// text is carried for the diagnostic.
    InvalidBindPort(String),
}

/// Resolved static configuration, immutable for the process lifetime.
#[derive(Debug, PartialEq, Eq)]
pub struct ServerConfig {
    pub database_url: String,
    pub bind_host: String,
    pub bind_port: u16,
    pub bind_mode: BindMode,
    pub tls_key_path: String,
    pub tls_cert_path: String,
}

/// Whether every character of the text is a decimal digit and there is at
/// least one.
pub open spec fn all_dec_digits(s: Seq<char>) -> bool {
    s.len() > 0 && forall|i: int| 0 <= i < s.len() ==> 48 <= #[trigger] s[i] as int <= 57
}

/// The number a string of decimal digits denotes.
pub open spec fn dec_value(s: Seq<char>) -> int
    decreases s.len(),
{
    if s.len() == 0 {
        0
    } else {
        dec_value(s.drop_last()) * 10 + (s.last() as int - 48)
    }
}

/// A digit string denotes a non-negative number.
pub proof fn lemma_dec_value_nonneg(s: Seq<char>)
    requires
        forall|i: int| 0 <= i < s.len() ==> 48 <= #[trigger] s[i] as int <= 57,
    ensures
        dec_value(s) >= 0,
    decreases s.len(),
{
    if s.len() > 0 {
        lemma_dec_value_nonneg(s.drop_last());
    }
}

/// A prefix of a digit string never denotes more than the whole string.
pub proof fn lemma_dec_value_prefix(s: Seq<char>, i: int)
    requires
        forall|k: int| 0 <= k < s.len() ==> 48 <= #[trigger] s[k] as int <= 57,
        0 <= i <= s.len(),
    ensures
        dec_value(s.take(i)) <= dec_value(s),
    decreases s.len() - i,
{
    if i == s.len() {
        assert(s.take(i) =~= s);
    } else {
        lemma_dec_value_prefix(s, i + 1);
        assert(s.take(i + 1).drop_last() =~= s.take(i));
        lemma_dec_value_nonneg(s.take(i));
    }
}

/// Parses the TLS-enabled flag into a bind mode: the on token selects TLS,
/// the off token selects plain, and any other value is a fatal configuration
/// error carrying the offending token.
pub fn parse_tls_flag(flag: &str) -> (r: Result<BindMode, ConfigError>)
    ensures
        r is Ok <==> (flag@ == "true"@ || flag@ == "false"@),
        flag@ == "true"@ ==> r == Ok::<BindMode, ConfigError>(BindMode::Tls),
        flag@ == "false"@ ==> r == Ok::<BindMode, ConfigError>(BindMode::Plain),
        r matches Err(e) ==> (e matches ConfigError::InvalidTlsFlag(t) && t@ == flag@),
{
    proof {
        reveal_strlit("true");
        reveal_strlit("false");
    }
    if str_eq(flag, "true") {
        assert("true"@.len() == 4 && "false"@.len() == 5);
        Ok(BindMode::Tls)
    } else if str_eq(flag, "false") {
        Ok(BindMode::Plain)
    } else {
        Err(ConfigError::InvalidTlsFlag(flag.to_owned()))
    }
}

/// Parses the bind port: succeeds exactly on a non-empty all-digit string
/// whose value a port can hold, and then returns that value.
pub fn parse_port(text: &str) -> (r: Result<u16, ConfigError>)
    ensures
        r is Ok <==> (all_dec_digits(text@) && dec_value(text@) <= u16::MAX),
        r matches Ok(p) ==> p as int == dec_value(text@),
        r matches Err(e) ==> (e matches ConfigError::InvalidBindPort(t) && t@ == text@),
{
    let len: usize = text.unicode_len();
    if len == 0 {
        return Err(ConfigError::InvalidBindPort(text.to_owned()));
    }
    let mut value: u32 = 0;
    let mut i: usize = 0;
    while i < len
        invariant
            0 < len == text@.len(),
            i <= len,
            forall|k: int| 0 <= k < i ==> 48 <= #[trigger] text@[k] as int <= 57,
            value as int == dec_value(text@.take(i as int)),
            value <= u16::MAX,
        decreases len - i,
    {
        let c: char = text.get_char(i);
        let code: u32 = c as u32;
        if code < 48 || code > 57 {
            return Err(ConfigError::InvalidBindPort(text.to_owned()));
        }
        proof {
            assert(text@.take(i + 1).drop_last() =~= text@.take(i as int));
            assert(text@.take(i + 1).last() == text@[i as int]);
        }
        let next: u32 = value * 10 + (code - 48);
        if next > u16::MAX as u32 {
            proof {
                if all_dec_digits(text@) {
                    lemma_dec_value_prefix(text@, i + 1);
                }
            }
            return Err(ConfigError::InvalidBindPort(text.to_owned()));
        }
        value = next;
        i = i + 1;
    }
    proof {
        assert(text@.take(len as int) =~= text@);
    }
    Ok(value as u16)
}

/// Resolves the configuration from the externally supplied values, applying
/// the documented defaults and rejecting anything malformed. The database
/// connection string is required; the TLS flag must be one of the two
/// recognized tokens; the port must be a number a port can hold. Errors are
/// reported in that order.
pub fn resolve_config(
    database_url: Option<String>,
    bind_host: Option<String>,
    bind_port: Option<String>,
    tls_enabled: Option<String>,
    tls_key_path: Option<String>,
    tls_cert_path: Option<String>,
) -> (r: Result<ServerConfig, ConfigError>)
    ensures
        r is Ok <==> ({
            &&& database_url is Some
            &&& (tls_enabled matches Some(f) ==> (f@ == "true"@ || f@ == "false"@))
            &&& (bind_port matches Some(p) ==> (all_dec_digits(p@) && dec_value(p@) <= u16::MAX))
        }),
        database_url is None ==> r == Err::<ServerConfig, ConfigError>(
            ConfigError::MissingDatabaseUrl,
        ),
        r matches Ok(c) ==> {
            &&& c.database_url@ == database_url.unwrap()@
            &&& c.bind_host@ == (if bind_host is Some { bind_host.unwrap()@ } else {
                DEFAULT_BIND_HOST@
            })
            &&& c.bind_port as int == (if bind_port is Some { dec_value(bind_port.unwrap()@) } else {
                DEFAULT_BIND_PORT as int
            })
            &&& c.bind_mode == (if tls_enabled matches Some(f) && f@ == "true"@ {
                BindMode::Tls
            } else {
                BindMode::Plain
            })
            &&& c.tls_key_path@ == (if tls_key_path is Some { tls_key_path.unwrap()@ } else {
                DEFAULT_TLS_KEY_PATH@
            })
            &&& c.tls_cert_path@ == (if tls_cert_path is Some { tls_cert_path.unwrap()@ } else {
                DEFAULT_TLS_CERT_PATH@
            })
        },
        r matches Err(ConfigError::InvalidTlsFlag(t)) ==> ({
            &&& database_url is Some
            &&& (tls_enabled matches Some(f) && f@ == t@ && f@ != "true"@ && f@ != "false"@)
        }),
        r matches Err(ConfigError::InvalidBindPort(t)) ==> ({
            &&& database_url is Some
            &&& (bind_port matches Some(p) && p@ == t@ && !(all_dec_digits(p@) && dec_value(
                p@,
            ) <= u16::MAX))
        }),
{
    let url: String = match database_url {
        Some(u) => u,
        None => {
            return Err(ConfigError::MissingDatabaseUrl);
        },
    };
    let bind_mode: BindMode = match tls_enabled {
        Some(flag) => match parse_tls_flag(flag.as_str()) {
            Ok(mode) => mode,
            Err(e) => {
                return Err(e);
            },
        },
        None => BindMode::Plain,
    };
    let port: u16 = match bind_port {
        Some(text) => match parse_port(text.as_str()) {
            Ok(p) => p,
            Err(e) => {
                return Err(e);
            },
        },
        None => DEFAULT_BIND_PORT,
    };
    let host: String = match bind_host {
        Some(h) => h,
        None => String::from_str(DEFAULT_BIND_HOST),
    };
    let key_path: String = match tls_key_path {
        Some(p) => p,
        None => String::from_str(DEFAULT_TLS_KEY_PATH),
    };
    let cert_path: String = match tls_cert_path {
        Some(p) => p,
        None => String::from_str(DEFAULT_TLS_CERT_PATH),
    };
    Ok(ServerConfig {
        database_url: url,
        bind_host: host,
        bind_port: port,
        bind_mode,
        tls_key_path: key_path,
        tls_cert_path: cert_path,
    })
}

} // verus!
