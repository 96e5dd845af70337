use rand::Rng;
use vstd::prelude::*;
use vstd::string::StringSliceAdditionalSpecFns;
use vstd::utf8::encode_utf8;

verus! {

/// Server configuration. Every field has a default; a `config.toml` file
/// overrides the defaults and `RUSTDESK_AB_*` environment variables override the file.
pub struct Config {
    pub port: u16,
    pub db_path: String,
    pub jwt_secret: String,
    pub admin_username: String,
    pub admin_password: String,
    pub token_expiry_hours: u64,
}

impl Default for Config {
    fn default() -> (c: Self)
        ensures
            c.port == 21114,
            c.db_path@ == "data/db.sqlite3"@,
            c.jwt_secret@ == Seq::<char>::empty(),
            c.admin_username@ == "admin"@,
            c.admin_password@ == Seq::<char>::empty(),
            c.token_expiry_hours == 168,
    {
        Config {
            port: 21114,
            db_path: "data/db.sqlite3".to_owned(),
            jwt_secret: String::new(),
            admin_username: "admin".to_owned(),
            admin_password: String::new(),
            token_expiry_hours: 168,  // 7 days
        }
    }
}

/// The values of the `RUSTDESK_AB_*` environment variables that were set,
/// in the order `PORT`, `DB_PATH`, `JWT_SECRET`, `ADMIN_USERNAME`, `ADMIN_PASSWORD`.
pub struct ConfigEnv {
    pub port: Option<String>,
    pub db_path: Option<String>,
    pub jwt_secret: Option<String>,
    pub admin_username: Option<String>,
    pub admin_password: Option<String>,
}

/// A configuration value that cannot be used.
#[derive(Debug)]
pub enum ConfigError {
    /// `RUSTDESK_AB_PORT` is not a port number; it holds the rejected text.
    InvalidPort(String),
}

/// The ASCII code of the decimal digit `0`.
pub open spec fn is_ascii_digit_byte(b: u8) -> bool {
    48 <= b <= 57
}

/// The value of a string of decimal digits, most significant first.
pub open spec fn decimal_value(digits: Seq<u8>) -> int
    decreases digits.len(),
{
    if digits.len() == 0 {
        0
    } else {
        decimal_value(digits.drop_last()) * 10 + (digits.last() - 48)
    }
}

/// The digits of a port number written with an optional leading `+`.
pub open spec fn port_digits(text: Seq<u8>) -> Seq<u8> {
    if text.len() > 0 && text[0] == 43 {
        text.drop_first()
    } else {
        text
    }
}

/// The port number that `text` (UTF-8 bytes) denotes: an optional `+` followed by
/// one or more decimal digits whose value is at most 65535.
pub open spec fn parsed_port(text: Seq<u8>) -> Option<u16> {
    let digits = port_digits(text);
    if digits.len() > 0 && (forall|i: int| 0 <= i < digits.len() ==> is_ascii_digit_byte(
        #[trigger] digits[i],
    )) && decimal_value(digits) <= 65535 {
        Some(decimal_value(digits) as u16)
    } else {
        None
    }
}

proof fn lemma_decimal_value_nonneg(digits: Seq<u8>)
    requires
        forall|k: int| 0 <= k < digits.len() ==> is_ascii_digit_byte(#[trigger] digits[k]),
    ensures
        decimal_value(digits) >= 0,
    decreases digits.len(),
{
    if digits.len() > 0 {
        let rest = digits.drop_last();
        assert forall|k: int| 0 <= k < rest.len() implies is_ascii_digit_byte(#[trigger] rest[k]) by {
            assert(rest[k] == digits[k]);
        }
        lemma_decimal_value_nonneg(rest);
        assert(is_ascii_digit_byte(digits[digits.len() - 1]));
    }
}

proof fn lemma_decimal_value_grows(digits: Seq<u8>, i: int)
    requires
        0 <= i <= digits.len(),
        forall|k: int| 0 <= k < digits.len() ==> is_ascii_digit_byte(#[trigger] digits[k]),
    ensures
        decimal_value(digits.take(i)) <= decimal_value(digits),
    decreases digits.len() - i,
{
    if i < digits.len() {
        lemma_decimal_value_grows(digits, i + 1);
        let prefix = digits.take(i + 1);
        assert(prefix.drop_last() =~= digits.take(i));
        assert(prefix.last() == digits[i]);
        assert(is_ascii_digit_byte(digits[i]));
        assert forall|k: int| 0 <= k < digits.take(i).len() implies is_ascii_digit_byte(
            #[trigger] digits.take(i)[k],
        ) by {
            assert(digits.take(i)[k] == digits[k]);
        }
        lemma_decimal_value_nonneg(digits.take(i));
        assert(decimal_value(prefix) == decimal_value(digits.take(i)) * 10 + (digits[i] - 48));
    } else {
        assert(digits.take(i) =~= digits);
    }
}

/// Reads a port number the way `u16::from_str` does: an optional `+`, then
/// decimal digits whose value fits in 16 bits.
pub fn parse_port(text: &str) -> (port: Option<u16>)
    ensures
        port == parsed_port(text.spec_bytes()),
        port == port_from_text(text@),
{
    let bytes = text.as_bytes();
    let ghost all = bytes@;
    let mut start: usize = 0;
    if bytes.len() > 0 && bytes[0] == 43u8 {
        start = 1;
    }
    let ghost digits = port_digits(all);
    assert(digits =~= all.subrange(start as int, all.len() as int));
    if start == bytes.len() {
        return None;
    }
    let mut value: u32 = 0;
    let mut i: usize = start;
    while i < bytes.len()
        invariant
            bytes@ == all,
            all == text.spec_bytes(),
            digits == port_digits(all),
            start <= i <= all.len(),
            digits =~= all.subrange(start as int, all.len() as int),
            forall|k: int| 0 <= k < i - start ==> is_ascii_digit_byte(#[trigger] digits[k]),
            value == decimal_value(digits.take(i - start)),
            value <= 65535,
        decreases all.len() - i,
    {
        let b = bytes[i];
        assert(digits[i - start] == b);
        if b < 48u8 || b > 57u8 {
            assert(!is_ascii_digit_byte(digits[i - start]));
            return None;
        }
        assert(digits.take(i - start + 1).drop_last() =~= digits.take(i - start));
        assert(digits.take(i - start + 1).last() == b);
        let next: u32 = value * 10 + (b - 48u8) as u32;
        if next > 65535 {
            proof {
                if forall|k: int| 0 <= k < digits.len() ==> is_ascii_digit_byte(#[trigger] digits[k]) {
                    lemma_decimal_value_grows(digits, i - start + 1);
                }
            }
            return None;
        }
        value = next;
        i = i + 1;
    }
    assert(digits.take(i - start) =~= digits);
    Some(value as u16)
}

/// The port number that the text of an environment variable denotes.
pub open spec fn port_from_text(text: Seq<char>) -> Option<u16> {
    parsed_port(encode_utf8(text))
}

/// Whether `c` is an ASCII letter or digit.
pub open spec fn is_ascii_alphanumeric(c: char) -> bool {
    ('0' <= c <= '9') || ('A' <= c <= 'Z') || ('a' <= c <= 'z')
}

/// A fresh JWT secret: 64 characters drawn at random by `rand` from its
/// `Alphanumeric` distribution (`A-Z`, `a-z`, `0-9`). Only the length and the
/// alphabet are stated; which characters come out is left to chance. (`rand`
/// panics only when the operating system cannot seed its generator.)
#[verifier::external_body]
fn random_jwt_secret() -> (secret: String)
    ensures
        secret@.len() == 64,
        forall|i: int| 0 <= i < 64 ==> is_ascii_alphanumeric(#[trigger] secret@[i]),
{
    rand::thread_rng().sample_iter(&rand::distributions::Alphanumeric).take(64).map(
        char::from,
    ).collect()
}

/// The password the administrator account falls back to when none is configured.
pub open spec fn fallback_admin_password() -> Seq<char> {
    "admin"@
}

impl Config {
    /// Applies the environment overrides: each variable that is set replaces the
    /// field it names. A port that is not a number is refused.
    pub fn with_env(self, env: ConfigEnv) -> (r: Result<Config, ConfigError>)
        ensures
            match env.port {
                Some(p) => port_from_text(p@) is None <==> r is Err,
                None => r is Ok,
            },
            r matches Err(ConfigError::InvalidPort(p)) ==> env.port == Some(p),
            r matches Ok(c) ==> {
                &&& c.port == (match env.port {
                    Some(p) => port_from_text(p@)->0,
                    None => self.port,
                })
                &&& c.db_path == (match env.db_path {
                    Some(v) => v,
                    None => self.db_path,
                })
                &&& c.jwt_secret == (match env.jwt_secret {
                    Some(v) => v,
                    None => self.jwt_secret,
                })
                &&& c.admin_username == (match env.admin_username {
                    Some(v) => v,
                    None => self.admin_username,
                })
                &&& c.admin_password == (match env.admin_password {
                    Some(v) => v,
                    None => self.admin_password,
                })
                &&& c.token_expiry_hours == self.token_expiry_hours
            },
    {
        let mut config = self;
        if let Some(p) = env.port {
            match parse_port(p.as_str()) {
                Some(v) => {
                    config.port = v;
                },
                None => {
                    return Err(ConfigError::InvalidPort(p));
                },
            }
        }
        if let Some(v) = env.db_path {
            config.db_path = v;
        }
        if let Some(v) = env.jwt_secret {
            config.jwt_secret = v;
        }
        if let Some(v) = env.admin_username {
            config.admin_username = v;
        }
        if let Some(v) = env.admin_password {
            config.admin_password = v;
        }
        Ok(config)
    }

    /// Fills what is still missing after the file and the environment: an empty
    /// JWT secret is replaced by a random one (sessions then do not survive a
    /// restart), an empty admin password by `admin`.
    pub fn with_fallback_secrets(self) -> (c: Config)
        ensures
            self.jwt_secret@.len() > 0 ==> c.jwt_secret == self.jwt_secret,
            self.jwt_secret@.len() == 0 ==> c.jwt_secret@.len() == 64 && forall|i: int|
                0 <= i < 64 ==> is_ascii_alphanumeric(#[trigger] c.jwt_secret@[i]),
            self.admin_password@.len() > 0 ==> c.admin_password == self.admin_password,
            self.admin_password@.len() == 0 ==> c.admin_password@ == fallback_admin_password(),
            c.port == self.port,
            c.db_path == self.db_path,
            c.admin_username == self.admin_username,
            c.token_expiry_hours == self.token_expiry_hours,
    {
        let mut config = self;
        if config.jwt_secret.as_str().is_empty() {
            config.jwt_secret = random_jwt_secret();
        }
        if config.admin_password.as_str().is_empty() {
            config.admin_password = "admin".to_owned();
        }
        config
    }
}

} // verus!
