use vstd::prelude::*;

use crate::error::{app_error_message, AppError};

verus! {

/// Port the server listens on when none is configured.
pub const DEFAULT_PORT: u16 = 4000;

/// Process-wide settings, read once at start-up.
#[derive(Debug)]
pub struct Config {
    pub database_url: String,
    pub redis_url: String,
    pub redis_public_url: String,
    pub cloud_amqp_url: String,
    pub jwt_secret: Option<String>,
    pub jwt_expires_in: String,
    pub github_client_id: String,
    pub github_client_secret: Option<String>,
    pub github_callback_url: String,
    pub frontend_url: String,
    pub cors_origin: String,
    pub stripe_publishable_key: String,
    pub stripe_secret_key: Option<String>,
    pub stripe_webhook_secret: Option<String>,
    pub supabase_url: String,
    pub supabase_anon_key: Option<String>,
    pub port: u16,
    pub node_env: String,
}

/// The value of `key` among environment-style `(name, value)` pairs: the first
/// pair with that name.
pub open spec fn env_value(vars: Seq<(String, String)>, key: Seq<char>) -> Option<Seq<char>>
    decreases vars.len(),
{
    if vars.len() == 0 {
        None
    } else if vars[0].0@ == key {
        Some(vars[0].1@)
    } else {
        env_value(vars.drop_first(), key)
    }
}

/// The value of `key`, or `default` when it is not set.
pub open spec fn setting_value(vars: Seq<(String, String)>, key: Seq<char>, default: Seq<char>) -> Seq<
    char,
> {
    match env_value(vars, key) {
        Some(v) => v,
        None => default,
    }
}

pub open spec fn text_option(v: Option<String>) -> Option<Seq<char>> {
    match v {
        Some(s) => Some(s@),
        None => None,
    }
}

/// The value of `key`, if it is set.
pub fn lookup(vars: &Vec<(String, String)>, key: &str) -> (r: Option<String>)
    ensures
        text_option(r) == env_value(vars@, key@),
{
    let n = vars.len();
    let mut i: usize = 0;
    assert(vars@.subrange(0, n as int) =~= vars@);
    while i < n
        invariant
            n == vars@.len(),
            i <= n,
            env_value(vars@.subrange(i as int, n as int), key@) == env_value(vars@, key@),
        decreases n - i,
    {
        let rest = Ghost(vars@.subrange(i as int, n as int));
        assert(rest@[0] == vars@[i as int]);
        if crate::text::str_eq(vars[i].0.as_str(), key) {
            return Some(vars[i].1.clone());
        }
        assert(rest@.drop_first() =~= vars@.subrange(i as int + 1, n as int));
        i = i + 1;
    }
    None
}

/// The value of `key`, or `default` when it is not set.
pub fn setting(vars: &Vec<(String, String)>, key: &str, default: &str) -> (r: String)
    ensures
        r@ == setting_value(vars@, key@, default@),
{
    match lookup(vars, key) {
        Some(v) => v,
        None => default.to_owned(),
    }
}

pub open spec fn is_digit(c: char) -> bool {
    '0' <= c && c <= '9'
}

pub open spec fn decimal_value(s: Seq<char>) -> int
    decreases s.len(),
{
    if s.len() == 0 {
        0
    } else {
        decimal_value(s.drop_last()) * 10 + (s.last() as int - '0' as int)
    }
}

/// The digits of a port number: an optional `+` sign removed.
pub open spec fn unsigned_digits(s: Seq<char>) -> Seq<char> {
    if s.len() > 0 && s[0] == '+' {
        s.drop_first()
    } else {
        s
    }
}

/// The 16-bit unsigned number written in `s`: an optional `+`, then one or
/// more decimal digits, of value at most 65535.
pub open spec fn port_number(s: Seq<char>) -> Option<u16> {
    let d = unsigned_digits(s);
    if d.len() > 0 && (forall|i: int| 0 <= i < d.len() ==> is_digit(#[trigger] d[i])) && decimal_value(d)
        <= u16::MAX {
        Some(decimal_value(d) as u16)
    } else {
        None
    }
}

spec fn capped(v: int) -> int {
    if v > 65536 {
        65536
    } else {
        v
    }
}

proof fn lemma_decimal_nonneg(s: Seq<char>)
    requires
        forall|i: int| 0 <= i < s.len() ==> is_digit(#[trigger] s[i]),
    ensures
        decimal_value(s) >= 0,
    decreases s.len(),
{
    if s.len() > 0 {
        assert(is_digit(s[s.len() - 1]));
        lemma_decimal_nonneg(s.drop_last());
    }
}

/// Reads a port number the way `str::parse::<u16>` does.
pub fn parse_port(s: &str) -> (r: Option<u16>)
    ensures
        r == port_number(s@),
{
    let n = s.unicode_len();
    let start: usize = if n > 0 && s.get_char(0) == '+' {
        1
    } else {
        0
    };
    let ghost d = unsigned_digits(s@);
    assert(d =~= s@.subrange(start as int, n as int));
    if start >= n {
        return None;
    }
    let mut acc: u32 = 0;
    let mut i: usize = start;
    while i < n
        invariant
            start <= i <= n,
            n == s@.len(),
            d =~= s@.subrange(start as int, n as int),
            d == unsigned_digits(s@),
            forall|k: int| 0 <= k < i - start ==> is_digit(#[trigger] d[k]),
            acc == capped(decimal_value(d.subrange(0, i - start))),
        decreases n - i,
    {
        let c = s.get_char(i);
        if !('0' <= c && c <= '9') {
            assert(!is_digit(d[i - start]));
            assert(!(forall|k: int| 0 <= k < d.len() ==> is_digit(#[trigger] d[k])));
            return None;
        }
        let ghost pre = d.subrange(0, i - start);
        let ghost next = d.subrange(0, i - start + 1);
        assert(next.drop_last() =~= pre);
        assert(next.last() == c);
        proof {
            assert forall|k: int| 0 <= k < pre.len() implies is_digit(#[trigger] pre[k]) by {
                assert(pre[k] == d[k]);
            }
            lemma_decimal_nonneg(pre);
        }
        let digit = (c as u32) - ('0' as u32);
        acc = if acc >= 6554 {
            65536
        } else {
            let v = acc * 10 + digit;
            if v > 65536 {
                65536
            } else {
                v
            }
        };
        i = i + 1;
    }
    assert(d.subrange(0, n - start) =~= d);
    if acc > 65535 {
        None
    } else {
        Some(acc as u16)
    }
}

impl Config {
    /// The configuration described by environment-style `(name, value)` pairs.
    /// Secrets have no default and stay absent when they are not set; every
    /// other setting falls back to its default. A port that does not parse
    /// falls back to the default port.
    pub fn from_vars(vars: &Vec<(String, String)>) -> (r: Config)
        ensures
            r.database_url@ == setting_value(vars@, "DATABASE_URL"@, "postgresql://localhost/funify"@),
            r.redis_url@ == setting_value(vars@, "REDIS_URL"@, "redis://localhost:6379"@),
            r.redis_public_url@ == setting_value(vars@, "REDIS_PUBLIC_URL"@, "redis://localhost:6379"@),
            r.cloud_amqp_url@ == setting_value(vars@, "CLOUD_AMQP"@, "amqp://localhost:5672"@),
            text_option(r.jwt_secret) == env_value(vars@, "JWT_SECRET"@),
            r.jwt_expires_in@ == setting_value(vars@, "JWT_EXPIRES_IN"@, "7d"@),
            r.github_client_id@ == setting_value(vars@, "GITHUB_CLIENT_ID"@, ""@),
            text_option(r.github_client_secret) == env_value(vars@, "GITHUB_CLIENT_SECRET"@),
            r.github_callback_url@ == setting_value(vars@, "GITHUB_CALLBACK_URL"@, ""@),
            r.frontend_url@ == setting_value(vars@, "FRONTEND_URL"@, "http://localhost:3000"@),
            r.cors_origin@ == setting_value(vars@, "CORS_ORIGIN"@, "http://localhost:3000"@),
            r.stripe_publishable_key@ == setting_value(vars@, "STRIPE_PUBLISHABLE_KEY"@, ""@),
            text_option(r.stripe_secret_key) == env_value(vars@, "STRIPE_SECRET_KEY"@),
            text_option(r.stripe_webhook_secret) == env_value(vars@, "STRIPE_WEBHOOK_SECRET"@),
            r.supabase_url@ == setting_value(vars@, "SUPABASE_URL"@, ""@),
            text_option(r.supabase_anon_key) == env_value(vars@, "SUPABASE_ANON_KEY"@),
            r.port == match port_number(setting_value(vars@, "PORT"@, "4000"@)) {
                Some(p) => p,
                None => DEFAULT_PORT,
            },
            r.node_env@ == setting_value(vars@, "NODE_ENV"@, "development"@),
    {
        let port_text = setting(vars, "PORT", "4000");
        let port = match parse_port(port_text.as_str()) {
            Some(p) => p,
            None => DEFAULT_PORT,
        };
        Config {
            database_url: setting(vars, "DATABASE_URL", "postgresql://localhost/funify"),
            redis_url: setting(vars, "REDIS_URL", "redis://localhost:6379"),
            redis_public_url: setting(vars, "REDIS_PUBLIC_URL", "redis://localhost:6379"),
            cloud_amqp_url: setting(vars, "CLOUD_AMQP", "amqp://localhost:5672"),
            jwt_secret: lookup(vars, "JWT_SECRET"),
            jwt_expires_in: setting(vars, "JWT_EXPIRES_IN", "7d"),
            github_client_id: setting(vars, "GITHUB_CLIENT_ID", ""),
            github_client_secret: lookup(vars, "GITHUB_CLIENT_SECRET"),
            github_callback_url: setting(vars, "GITHUB_CALLBACK_URL", ""),
            frontend_url: setting(vars, "FRONTEND_URL", "http://localhost:3000"),
            cors_origin: setting(vars, "CORS_ORIGIN", "http://localhost:3000"),
            stripe_publishable_key: setting(vars, "STRIPE_PUBLISHABLE_KEY", ""),
            stripe_secret_key: lookup(vars, "STRIPE_SECRET_KEY"),
            stripe_webhook_secret: lookup(vars, "STRIPE_WEBHOOK_SECRET"),
            supabase_url: setting(vars, "SUPABASE_URL", ""),
            supabase_anon_key: lookup(vars, "SUPABASE_ANON_KEY"),
            port,
            node_env: setting(vars, "NODE_ENV", "development"),
        }
    }

    /// The key that signs and checks tokens. Without one the server cannot
    /// authenticate anybody: a configuration error.
    pub fn signing_secret(&self) -> (r: Result<String, AppError>)
        ensures
            self.jwt_secret matches Some(k) ==> (r matches Ok(v) && v@ == k@),
            self.jwt_secret is None ==> (r matches Err(e) && e is ConfigError && app_error_message(e)
                == "JWT secret is not configured"@),
    {
        match &self.jwt_secret {
            Some(k) => Ok(k.clone()),
            None => Err(AppError::ConfigError("JWT secret is not configured".to_owned())),
        }
    }
}

} // verus!
