//! Settings of the service, read from environment variables.
use vstd::prelude::*;
use vstd::string::*;
use crate::text::{parse_unsigned, parse_unsigned_text};

verus! {

/// The environment variables that the settings are read from; `None` where
/// a variable is unset (or not valid Unicode).
#[derive(Clone, Debug)]
pub struct RawEnv {
    pub port: Option<String>,
    pub redis_url: Option<String>,
    pub smtp_host: Option<String>,
    pub smtp_port: Option<String>,
    pub smtp_user: Option<String>,
    pub smtp_password: Option<String>,
    pub smtp_use_tls: Option<String>,
    pub from_address: Option<String>,
    pub smtp_from: Option<String>,
    pub jwt_private_key_path: Option<String>,
    pub jwt_public_key_path: Option<String>,
    pub jwt_expiration_hours: Option<String>,
    pub otp_expiration_minutes: Option<String>,
    pub otp_length: Option<String>,
    pub rate_limit_reset_hours: Option<String>,
    pub max_verify_attempts: Option<String>,
    pub rate_limit_base_delay_seconds: Option<String>,
}

/// Settings of the service.
#[derive(Clone, Debug)]
pub struct Config {
    pub port: u16,
    pub redis_url: String,
    pub smtp_host: String,
    pub smtp_port: u16,
    pub smtp_user: String,
    pub smtp_password: String,
    pub smtp_use_tls: bool,
    pub from_address: String,
    pub jwt_private_key_path: String,
    pub jwt_public_key_path: String,
    pub jwt_expiration_hours: u64,
    pub otp_expiration_minutes: u64,
    pub otp_length: usize,
    pub rate_limit_reset_seconds: u64,
    pub max_verify_attempts: u32,
    pub rate_limit_base_delay_seconds: u64,
}

/// A variable whose value the settings cannot do without.
#[derive(Clone, Copy, Debug)]
pub enum ConfigVar {
    Port,
    RedisUrl,
    SmtpHost,
    SmtpPort,
    JwtExpirationHours,
    OtpExpirationMinutes,
    OtpLength,
    RateLimitResetHours,
    MaxVerifyAttempts,
    RateLimitBaseDelaySeconds,
}

/// The name of each variable.
pub open spec fn config_var_name(v: ConfigVar) -> Seq<char> {
    match v {
        ConfigVar::Port => "PORT"@,
        ConfigVar::RedisUrl => "REDIS_URL"@,
        ConfigVar::SmtpHost => "SMTP_HOST"@,
        ConfigVar::SmtpPort => "SMTP_PORT"@,
        ConfigVar::JwtExpirationHours => "JWT_EXPIRATION_HOURS"@,
        ConfigVar::OtpExpirationMinutes => "OTP_EXPIRATION_MINUTES"@,
        ConfigVar::OtpLength => "OTP_LENGTH"@,
        ConfigVar::RateLimitResetHours => "RATE_LIMIT_RESET_HOURS"@,
        ConfigVar::MaxVerifyAttempts => "MAX_VERIFY_ATTEMPTS"@,
        ConfigVar::RateLimitBaseDelaySeconds => "RATE_LIMIT_BASE_DELAY_SECONDS"@,
    }
}

impl ConfigVar {
    /// The name of the variable.
    pub fn name(&self) -> (s: &'static str)
        ensures
            s@ == config_var_name(*self),
    {
        match self {
            ConfigVar::Port => "PORT",
            ConfigVar::RedisUrl => "REDIS_URL",
            ConfigVar::SmtpHost => "SMTP_HOST",
            ConfigVar::SmtpPort => "SMTP_PORT",
            ConfigVar::JwtExpirationHours => "JWT_EXPIRATION_HOURS",
            ConfigVar::OtpExpirationMinutes => "OTP_EXPIRATION_MINUTES",
            ConfigVar::OtpLength => "OTP_LENGTH",
            ConfigVar::RateLimitResetHours => "RATE_LIMIT_RESET_HOURS",
            ConfigVar::MaxVerifyAttempts => "MAX_VERIFY_ATTEMPTS",
            ConfigVar::RateLimitBaseDelaySeconds => "RATE_LIMIT_BASE_DELAY_SECONDS",
        }
    }
}

/// Why the settings could not be read.
#[derive(Clone, Copy, Debug)]
pub enum ConfigError {
    /// A variable without default is unset.
    Unset(ConfigVar),
    /// A numeric variable is not a number of its type.
    NotANumber(ConfigVar),
}

/// The text that reports each error.
pub open spec fn config_error_text(e: ConfigError) -> Seq<char> {
    match e {
        ConfigError::Unset(v) => config_var_name(v) + " must be set"@,
        ConfigError::NotANumber(v) => config_var_name(v) + " must be a number"@,
    }
}

impl ConfigError {
    /// The text that reports the error.
    pub fn message(&self) -> (s: String)
        ensures
            s@ == config_error_text(*self),
    {
        match self {
            ConfigError::Unset(v) => String::from_str(v.name()).concat(" must be set"),
            ConfigError::NotANumber(v) => String::from_str(v.name()).concat(" must be a number"),
        }
    }
}

/// A numeric setting: `default` when unset, else the variable parsed as a
/// number no larger than `max` (`None` when it is not one).
pub open spec fn number_setting(raw: Option<String>, default: nat, max: nat) -> Option<nat> {
    match raw {
        None => Some(default),
        Some(s) => parse_unsigned(s@, max),
    }
}

fn read_number(raw: &Option<String>, default: u64, max: u64) -> (r: Option<u64>)
    requires
        default <= max,
    ensures
        match number_setting(*raw, default as nat, max as nat) {
            Some(v) => r == Some(v as u64),
            None => r is None,
        },
{
    match raw {
        None => Some(default),
        Some(s) => parse_unsigned_text(s.as_str(), max),
    }
}

/// A text setting: the variable, or `default` when unset.
pub open spec fn text_setting(raw: Option<String>, default: Seq<char>) -> Seq<char> {
    match raw {
        Some(s) => s@,
        None => default,
    }
}

fn read_text(raw: &Option<String>, default: &str) -> (s: String)
    ensures
        s@ == text_setting(*raw, default@),
{
    match raw {
        Some(s) => s.clone(),
        None => String::from_str(default),
    }
}

/// Whether TLS is asked for: the variable reads `true` or `1`.
pub open spec fn use_tls_setting(raw: Option<String>) -> bool {
    match raw {
        Some(s) => s@ == "true"@ || s@ == "1"@,
        None => false,
    }
}

/// The lifetime of the request counter in seconds: the variable's hours
/// times 3600, or a day when unset; `None` when the variable is not a
/// number of hours whose seconds fit in 64 bits.
pub open spec fn reset_seconds_setting(raw: Option<String>) -> Option<nat> {
    match raw {
        None => Some(86400),
        Some(s) => match parse_unsigned(s@, u64::MAX as nat) {
            Some(h) => if h * 3600 <= u64::MAX { Some(h * 3600) } else { None },
            None => None,
        },
    }
}

/// The first error met when reading the settings in their order, if any.
pub open spec fn config_error(raw: RawEnv) -> Option<ConfigError> {
    if number_setting(raw.port, 3000, u16::MAX as nat) is None {
        Some(ConfigError::NotANumber(ConfigVar::Port))
    } else if raw.redis_url is None {
        Some(ConfigError::Unset(ConfigVar::RedisUrl))
    } else if raw.smtp_host is None {
        Some(ConfigError::Unset(ConfigVar::SmtpHost))
    } else if number_setting(raw.smtp_port, 587, u16::MAX as nat) is None {
        Some(ConfigError::NotANumber(ConfigVar::SmtpPort))
    } else if number_setting(raw.jwt_expiration_hours, 24, u64::MAX as nat) is None {
        Some(ConfigError::NotANumber(ConfigVar::JwtExpirationHours))
    } else if number_setting(raw.otp_expiration_minutes, 10, u64::MAX as nat) is None {
        Some(ConfigError::NotANumber(ConfigVar::OtpExpirationMinutes))
    } else if number_setting(raw.otp_length, 6, usize::MAX as nat) is None {
        Some(ConfigError::NotANumber(ConfigVar::OtpLength))
    } else if reset_seconds_setting(raw.rate_limit_reset_hours) is None {
        Some(ConfigError::NotANumber(ConfigVar::RateLimitResetHours))
    } else if number_setting(raw.max_verify_attempts, 10, u32::MAX as nat) is None {
        Some(ConfigError::NotANumber(ConfigVar::MaxVerifyAttempts))
    } else if number_setting(raw.rate_limit_base_delay_seconds, 30, u64::MAX as nat) is None {
        Some(ConfigError::NotANumber(ConfigVar::RateLimitBaseDelaySeconds))
    } else {
        None
    }
}

/// Whether `c` holds the settings that `raw` gives.
pub open spec fn config_from(raw: RawEnv, c: Config) -> bool {
    &&& Some(c.port as nat) == number_setting(raw.port, 3000, u16::MAX as nat)
    &&& c.redis_url@ == raw.redis_url->Some_0@
    &&& c.smtp_host@ == raw.smtp_host->Some_0@
    &&& Some(c.smtp_port as nat) == number_setting(raw.smtp_port, 587, u16::MAX as nat)
    &&& c.smtp_user@ == text_setting(raw.smtp_user, Seq::empty())
    &&& c.smtp_password@ == text_setting(raw.smtp_password, Seq::empty())
    &&& c.smtp_use_tls == use_tls_setting(raw.smtp_use_tls)
    &&& c.from_address@ == match raw.from_address {
        Some(a) => a@,
        None => text_setting(raw.smtp_from, "noreply@example.com"@),
    }
    &&& c.jwt_private_key_path@ == text_setting(raw.jwt_private_key_path, "keys/private.pem"@)
    &&& c.jwt_public_key_path@ == text_setting(raw.jwt_public_key_path, "keys/public.pem"@)
    &&& Some(c.jwt_expiration_hours as nat) == number_setting(raw.jwt_expiration_hours, 24, u64::MAX as nat)
    &&& Some(c.otp_expiration_minutes as nat) == number_setting(raw.otp_expiration_minutes, 10, u64::MAX as nat)
    &&& Some(c.otp_length as nat) == number_setting(raw.otp_length, 6, usize::MAX as nat)
    &&& Some(c.rate_limit_reset_seconds as nat) == reset_seconds_setting(raw.rate_limit_reset_hours)
    &&& Some(c.max_verify_attempts as nat) == number_setting(raw.max_verify_attempts, 10, u32::MAX as nat)
    &&& Some(c.rate_limit_base_delay_seconds as nat) == number_setting(raw.rate_limit_base_delay_seconds, 30, u64::MAX as nat)
}

/// Each setting is its environment variable, read as the service documents
/// it: a set numeric variable is that number (hours of the request counter
/// times 3600), an unset one its default; a set text variable is that text,
/// an unset one its default; TLS is used exactly when `SMTP_USE_TLS` reads
/// `true` or `1`; the sender is `FROM_ADDRESS`, else `SMTP_FROM`, else
/// `noreply@example.com`.
pub proof fn law_settings_follow_variables(raw: RawEnv, c: Config)
    requires
        config_from(raw, c),
    ensures
        raw.port matches Some(s) ==> parse_unsigned(s@, u16::MAX as nat) == Some(c.port as nat),
        raw.port is None ==> c.port == 3000,
        raw.redis_url matches Some(s) ==> c.redis_url@ == s@,
        raw.smtp_host matches Some(s) ==> c.smtp_host@ == s@,
        raw.smtp_port matches Some(s) ==> parse_unsigned(s@, u16::MAX as nat) == Some(c.smtp_port as nat),
        raw.smtp_port is None ==> c.smtp_port == 587,
        raw.smtp_user matches Some(s) ==> c.smtp_user@ == s@,
        raw.smtp_user is None ==> c.smtp_user@.len() == 0,
        raw.smtp_password matches Some(s) ==> c.smtp_password@ == s@,
        raw.smtp_password is None ==> c.smtp_password@.len() == 0,
        c.smtp_use_tls <==> (raw.smtp_use_tls matches Some(s) && (s@ == "true"@ || s@ == "1"@)),
        raw.from_address matches Some(s) ==> c.from_address@ == s@,
        raw.from_address is None ==> (raw.smtp_from matches Some(s) ==> c.from_address@ == s@),
        raw.from_address is None && raw.smtp_from is None ==> c.from_address@ == "noreply@example.com"@,
        raw.jwt_private_key_path matches Some(s) ==> c.jwt_private_key_path@ == s@,
        raw.jwt_private_key_path is None ==> c.jwt_private_key_path@ == "keys/private.pem"@,
        raw.jwt_public_key_path matches Some(s) ==> c.jwt_public_key_path@ == s@,
        raw.jwt_public_key_path is None ==> c.jwt_public_key_path@ == "keys/public.pem"@,
        raw.jwt_expiration_hours matches Some(s) ==> parse_unsigned(s@, u64::MAX as nat) == Some(c.jwt_expiration_hours as nat),
        raw.jwt_expiration_hours is None ==> c.jwt_expiration_hours == 24,
        raw.otp_expiration_minutes matches Some(s) ==> parse_unsigned(s@, u64::MAX as nat) == Some(c.otp_expiration_minutes as nat),
        raw.otp_expiration_minutes is None ==> c.otp_expiration_minutes == 10,
        raw.otp_length matches Some(s) ==> parse_unsigned(s@, usize::MAX as nat) == Some(c.otp_length as nat),
        raw.otp_length is None ==> c.otp_length == 6,
        raw.rate_limit_reset_hours matches Some(s) ==> (parse_unsigned(s@, u64::MAX as nat) matches Some(h)
            && c.rate_limit_reset_seconds == h * 3600),
        raw.rate_limit_reset_hours is None ==> c.rate_limit_reset_seconds == 86400,
        raw.max_verify_attempts matches Some(s) ==> parse_unsigned(s@, u32::MAX as nat) == Some(c.max_verify_attempts as nat),
        raw.max_verify_attempts is None ==> c.max_verify_attempts == 10,
        raw.rate_limit_base_delay_seconds matches Some(s) ==> parse_unsigned(s@, u64::MAX as nat) == Some(
            c.rate_limit_base_delay_seconds as nat,
        ),
        raw.rate_limit_base_delay_seconds is None ==> c.rate_limit_base_delay_seconds == 30,
{
    reveal_strlit("");
}

fn read_use_tls(raw: &Option<String>) -> (b: bool)
    ensures
        b == use_tls_setting(*raw),
{
    match raw {
        Some(s) => {
            let t = String::from_str("true");
            let one = String::from_str("1");
            *s == t || *s == one
        },
        None => false,
    }
}

fn read_reset_seconds(raw: &Option<String>) -> (r: Option<u64>)
    ensures
        match reset_seconds_setting(*raw) {
            Some(v) => r == Some(v as u64),
            None => r is None,
        },
{
    match raw {
        None => Some(86400),
        Some(s) => match parse_unsigned_text(s.as_str(), u64::MAX) {
            Some(h) => h.checked_mul(3600),
            None => None,
        },
    }
}

impl Config {
    /// The first unset or malformed variable, in the order the settings are
    /// read, if any: the variables that `from_raw` cannot take.
    pub fn check(raw: &RawEnv) -> (r: Option<ConfigError>)
        ensures
            r == config_error(*raw),
    {
        match Self::read(raw) {
            Ok(_) => None,
            Err(e) => Some(e),
        }
    }

    /// Reads the settings from the variables: numbers have defaults where
    /// the service gives them (port 3000, SMTP port 587, 24 hours for the
    /// token, 10 minutes for a code, 6 digits, a day for the request
    /// counter, 10 checks, 30 s base delay); `REDIS_URL` and `SMTP_HOST`
    /// must be set; TLS is used when `SMTP_USE_TLS` reads `true` or `1`;
    /// the sender is `FROM_ADDRESS`, else `SMTP_FROM`, else
    /// `noreply@example.com`. Variables that `check` reports are not taken.
    pub fn from_raw(raw: &RawEnv) -> (c: Config)
        requires
            config_error(*raw) is None,
        ensures
            config_from(*raw, c),
    {
        match Self::read(raw) {
            Ok(c) => c,
            Err(_) => vstd::pervasive::unreached(),
        }
    }

    fn read(raw: &RawEnv) -> (r: Result<Config, ConfigError>)
        ensures
            match r {
                Ok(c) => config_error(*raw) is None && config_from(*raw, c),
                Err(e) => config_error(*raw) == Some(e),
            },
    {
        let port = match read_number(&raw.port, 3000, 65535) {
            Some(p) => p as u16,
            None => return Err(ConfigError::NotANumber(ConfigVar::Port)),
        };
        let redis_url = match &raw.redis_url {
            Some(u) => u.clone(),
            None => return Err(ConfigError::Unset(ConfigVar::RedisUrl)),
        };
        let smtp_host = match &raw.smtp_host {
            Some(h) => h.clone(),
            None => return Err(ConfigError::Unset(ConfigVar::SmtpHost)),
        };
        let smtp_port = match read_number(&raw.smtp_port, 587, 65535) {
            Some(p) => p as u16,
            None => return Err(ConfigError::NotANumber(ConfigVar::SmtpPort)),
        };
        let smtp_user = read_text(&raw.smtp_user, "");
        let smtp_password = read_text(&raw.smtp_password, "");
        let smtp_use_tls = read_use_tls(&raw.smtp_use_tls);
        let from_address = match &raw.from_address {
            Some(a) => a.clone(),
            None => read_text(&raw.smtp_from, "noreply@example.com"),
        };
        let jwt_private_key_path = read_text(&raw.jwt_private_key_path, "keys/private.pem");
        let jwt_public_key_path = read_text(&raw.jwt_public_key_path, "keys/public.pem");
        let jwt_expiration_hours = match read_number(&raw.jwt_expiration_hours, 24, u64::MAX) {
            Some(h) => h,
            None => return Err(ConfigError::NotANumber(ConfigVar::JwtExpirationHours)),
        };
        let otp_expiration_minutes = match read_number(&raw.otp_expiration_minutes, 10, u64::MAX) {
            Some(m) => m,
            None => return Err(ConfigError::NotANumber(ConfigVar::OtpExpirationMinutes)),
        };
        let otp_length = match read_number(&raw.otp_length, 6, usize::MAX as u64) {
            Some(n) => n as usize,
            None => return Err(ConfigError::NotANumber(ConfigVar::OtpLength)),
        };
        let rate_limit_reset_seconds = match read_reset_seconds(&raw.rate_limit_reset_hours) {
            Some(s) => s,
            None => return Err(ConfigError::NotANumber(ConfigVar::RateLimitResetHours)),
        };
        let max_verify_attempts = match read_number(&raw.max_verify_attempts, 10, 4294967295) {
            Some(n) => n as u32,
            None => return Err(ConfigError::NotANumber(ConfigVar::MaxVerifyAttempts)),
        };
        let rate_limit_base_delay_seconds = match read_number(&raw.rate_limit_base_delay_seconds, 30, u64::MAX) {
            Some(s) => s,
            None => return Err(ConfigError::NotANumber(ConfigVar::RateLimitBaseDelaySeconds)),
        };
        proof {
            reveal_strlit("");
        }
        let c = Config {
            port,
            redis_url,
            smtp_host,
            smtp_port,
            smtp_user,
            smtp_password,
            smtp_use_tls,
            from_address,
            jwt_private_key_path,
            jwt_public_key_path,
            jwt_expiration_hours,
            otp_expiration_minutes,
            otp_length,
            rate_limit_reset_seconds,
            max_verify_attempts,
            rate_limit_base_delay_seconds,
        };
        assert(Some(c.port as nat) == number_setting(raw.port, 3000, u16::MAX as nat));
        assert(c.redis_url@ == raw.redis_url->Some_0@);
        assert(c.smtp_host@ == raw.smtp_host->Some_0@);
        assert(Some(c.smtp_port as nat) == number_setting(raw.smtp_port, 587, u16::MAX as nat));
        assert(c.smtp_user@ == text_setting(raw.smtp_user, Seq::empty()));
        assert(c.smtp_password@ == text_setting(raw.smtp_password, Seq::empty()));
        assert(c.smtp_use_tls == use_tls_setting(raw.smtp_use_tls));
        assert(c.jwt_private_key_path@ == text_setting(raw.jwt_private_key_path, "keys/private.pem"@));
        assert(c.jwt_public_key_path@ == text_setting(raw.jwt_public_key_path, "keys/public.pem"@));
        assert(Some(c.jwt_expiration_hours as nat) == number_setting(raw.jwt_expiration_hours, 24, u64::MAX as nat));
        assert(Some(c.otp_expiration_minutes as nat) == number_setting(raw.otp_expiration_minutes, 10, u64::MAX as nat));
        assert(Some(c.otp_length as nat) == number_setting(raw.otp_length, 6, usize::MAX as nat));
        assert(Some(c.rate_limit_reset_seconds as nat) == reset_seconds_setting(raw.rate_limit_reset_hours));
        assert(Some(c.max_verify_attempts as nat) == number_setting(raw.max_verify_attempts, 10, u32::MAX as nat));
        assert(Some(c.rate_limit_base_delay_seconds as nat) == number_setting(raw.rate_limit_base_delay_seconds, 30, u64::MAX as nat));
        Ok(c)
    }
}

} // verus!
