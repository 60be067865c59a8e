//! Backend configuration: the values read from the environment, their
//! defaults, and the checks applied to them.
use vstd::prelude::*;

use crate::numfmt::{parse_u16, parse_u16_spec};
use crate::text::{
    ascii_lower_seq, ascii_lowercase, chars_eq, chars_of, is_ws, owned, string_of, trim, trim_chars,
    trimmed,
};

verus! {

/// How verification codes reach the user: real SMTP, or a log line in
/// development.
#[derive(Debug, Clone, Copy, PartialEq, Eq, Structural)]
pub enum EmailDeliveryMode {
    Smtp,
    Log,
}

/// SMTP submission settings.
#[derive(Debug, Clone)]
pub struct SmtpConfig {
    pub host: String,
    pub port: u16,
    pub username: String,
    pub password: String,
    pub from: String,
}

/// Everything the backend reads from its environment.
#[derive(Debug, Clone)]
pub struct AppConfig {
    pub port: u16,
    /// Path of the SQLCipher database file.
    pub database_path: String,
    /// Key given to `PRAGMA key`.
    pub database_key: String,
    /// Firebase project, checked as the JWT audience and in the issuer.
    pub firebase_project_id: String,
    /// Secret of the HMACs over verification codes and tokens.
    pub email_code_secret: String,
    pub email_delivery_mode: EmailDeliveryMode,
    /// Optional SMTP settings; without them, SMTP delivery answers 503.
    pub smtp: Option<SmtpConfig>,
    /// Origins allowed by CORS.
    pub cors_allowed_origins: Vec<String>,
}

/// The raw environment variables the configuration is built from (`None`
/// when unset).
#[derive(Debug, Clone)]
pub struct EnvValues {
    pub port: Option<String>,
    pub database_path: Option<String>,
    pub sqlcipher_key: Option<String>,
    pub firebase_project_id: Option<String>,
    pub email_code_secret: Option<String>,
    pub email_delivery_mode: Option<String>,
    pub smtp_host: Option<String>,
    pub smtp_username: Option<String>,
    pub smtp_password: Option<String>,
    pub smtp_from: Option<String>,
    pub smtp_port: Option<String>,
    pub cors_allowed_origins: Option<String>,
}

/// Why the environment cannot be turned into a configuration.
#[derive(Debug, Clone)]
pub enum ConfigError {
    /// `PORT` is not a valid port number.
    InvalidPort,
    /// `EMAIL_DELIVERY_MODE` is neither `smtp` nor `log`; carries the
    /// message `modo de entrega de email invalido: <value>`.
    InvalidDeliveryMode(String),
}

// ---------------------------------------------------------------------------
// Specifications
// ---------------------------------------------------------------------------
pub open spec fn opt_str_view(v: Option<&str>) -> Option<Seq<char>> {
    match v {
        Some(s) => Some(s@),
        None => None,
    }
}

pub open spec fn opt_view(v: Option<String>) -> Option<Seq<char>> {
    match v {
        Some(s) => Some(s@),
        None => None,
    }
}

/// The delivery mode named by `value` (default `smtp`), compared after
/// trimming and ASCII lowercasing; `None` for any other name.
pub open spec fn delivery_mode_spec(value: Option<Seq<char>>) -> Option<EmailDeliveryMode> {
    let v = ascii_lower_seq(trimmed(value.unwrap_or("smtp"@)));
    if v == ""@ || v == "smtp"@ {
        Some(EmailDeliveryMode::Smtp)
    } else if v == "log"@ {
        Some(EmailDeliveryMode::Log)
    } else {
        None
    }
}

/// The normalized delivery-mode name that an error message quotes.
pub open spec fn delivery_mode_name(value: Option<Seq<char>>) -> Seq<char> {
    ascii_lower_seq(trimmed(value.unwrap_or("smtp"@)))
}

/// The SMTP port: `SMTP_PORT` when it parses as a port, else 587.
pub open spec fn smtp_port_spec(port: Option<Seq<char>>) -> u16 {
    match port {
        Some(p) => match parse_u16_spec(p) {
            Some(v) => v,
            None => 587,
        },
        None => 587,
    }
}

/// SMTP settings exist when host, user, password and sender are all set and
/// non-empty (host, user and sender after trimming; the password as is).
pub open spec fn smtp_present(
    host: Option<Seq<char>>,
    username: Option<Seq<char>>,
    password: Option<Seq<char>>,
    from: Option<Seq<char>>,
) -> bool {
    &&& host is Some && trimmed(host.unwrap()).len() > 0
    &&& username is Some && trimmed(username.unwrap()).len() > 0
    &&& password is Some && password.unwrap().len() > 0
    &&& from is Some && trimmed(from.unwrap()).len() > 0
}

// ---------------------------------------------------------------------------
// Operations
// ---------------------------------------------------------------------------
/// Reads `EMAIL_DELIVERY_MODE`: unset, empty or `smtp` mean SMTP, `log`
/// means log-only delivery, case and surrounding blanks ignored.
pub fn parse_email_delivery_mode(value: Option<&str>) -> (r: Result<EmailDeliveryMode, String>)
    ensures
        delivery_mode_spec(opt_str_view(value)) matches Some(m) ==> (r matches Ok(x) && x == m),
        delivery_mode_spec(opt_str_view(value)) is None ==> (r matches Err(msg) && msg@
            == "modo de entrega de email invalido: "@ + delivery_mode_name(opt_str_view(value))),
{
    let raw: &str = match value {
        Some(v) => v,
        None => "smtp",
    };
    let ghost vv: Option<Seq<char>> = opt_str_view(value);
    assert(raw@ == vv.unwrap_or("smtp"@));
    let cs = chars_of(raw);
    let t = trim_chars(cs.as_slice());
    let v = ascii_lowercase(t.as_slice());
    assert(v@ == delivery_mode_name(vv));
    let empty: Vec<char> = Vec::new();
    let smtp = chars_of("smtp");
    let log = chars_of("log");
    proof {
        assert(empty@ =~= ""@) by {
            reveal_strlit("");
        }
    }
    if chars_eq(v.as_slice(), empty.as_slice()) || chars_eq(v.as_slice(), smtp.as_slice()) {
        Ok(EmailDeliveryMode::Smtp)
    } else if chars_eq(v.as_slice(), log.as_slice()) {
        Ok(EmailDeliveryMode::Log)
    } else {
        let mut msg = String::from_str("modo de entrega de email invalido: ");
        let name = string_of(v.as_slice());
        msg.append(name.as_str());
        Err(msg)
    }
}

/// The SMTP settings, from the raw `SMTP_*` variables.
pub fn smtp_config_from_values(
    host: Option<&str>,
    username: Option<&str>,
    password: Option<&str>,
    from: Option<&str>,
    port: Option<&str>,
) -> (r: Option<SmtpConfig>)
    ensures
        r is Some <==> smtp_present(
            opt_str_view(host),
            opt_str_view(username),
            opt_str_view(password),
            opt_str_view(from),
        ),
        r matches Some(c) ==> {
            &&& c.host@ == trimmed(host.unwrap()@)
            &&& c.username@ == trimmed(username.unwrap()@)
            &&& c.password@ == password.unwrap()@
            &&& c.from@ == trimmed(from.unwrap()@)
            &&& c.port == smtp_port_spec(opt_str_view(port))
        },
        r matches Some(c) ==> match port {
            None => c.port == 587,
            Some(p) => match parse_u16_spec(p@) {
                Some(v) => c.port == v,
                None => c.port == 587,
            },
        },
{
    let (h, u, p, f) = match (host, username, password, from) {
        (Some(h), Some(u), Some(p), Some(f)) => (h, u, p, f),
        _ => return None,
    };
    let host = trim(h);
    let username = trim(u);
    let password = owned(p);
    let from = trim(f);
    let port: u16 = match port {
        Some(text) => {
            let cs = chars_of(text);
            match parse_u16(cs.as_slice()) {
                Some(v) => v,
                None => 587,
            }
        },
        None => 587,
    };
    if host.as_str().unicode_len() == 0 || username.as_str().unicode_len() == 0
        || password.as_str().unicode_len() == 0 || from.as_str().unicode_len() == 0 {
        return None;
    }
    Some(SmtpConfig { host, port, username, password, from })
}

// ---------------------------------------------------------------------------
// CORS allowlist
// ---------------------------------------------------------------------------
/// The pieces of `s` between commas (one piece when there is no comma).
pub open spec fn split_commas(s: Seq<char>) -> Seq<Seq<char>>
    decreases s.len(),
{
    if s.len() == 0 {
        seq![seq![]]
    } else {
        let prev = split_commas(s.drop_last());
        if s.last() == ',' {
            prev.push(seq![])
        } else {
            prev.update(prev.len() - 1, prev.last().push(s.last()))
        }
    }
}

/// The trimmed, non-empty pieces among `pieces`, in order.
pub open spec fn nonempty_trimmed(pieces: Seq<Seq<char>>) -> Seq<Seq<char>>
    decreases pieces.len(),
{
    if pieces.len() == 0 {
        seq![]
    } else {
        let prev = nonempty_trimmed(pieces.drop_last());
        let t = trimmed(pieces.last());
        if t.len() > 0 {
            prev.push(t)
        } else {
            prev
        }
    }
}

/// The CORS allowlist: the comma-separated origins of
/// `CORS_ALLOWED_ORIGINS` (trimmed, blanks dropped), or the local
/// development front end when the variable is unset.
pub open spec fn cors_origins_spec(value: Option<Seq<char>>) -> Seq<Seq<char>> {
    match value {
        Some(v) => nonempty_trimmed(split_commas(v)),
        None => seq!["http://localhost:5173"@],
    }
}

pub open spec fn strings_view(v: Seq<String>) -> Seq<Seq<char>> {
    v.map_values(|s: String| s@)
}

proof fn lemma_split_commas_nonempty(s: Seq<char>)
    ensures
        split_commas(s).len() >= 1,
    decreases s.len(),
{
    if s.len() > 0 {
        lemma_split_commas_nonempty(s.drop_last());
    }
}

/// Splits `s` at its commas.
fn split_at_commas(s: &[char]) -> (r: Vec<Vec<char>>)
    ensures
        r@.map_values(|p: Vec<char>| p@) == split_commas(s@),
{
    let mut done: Vec<Vec<char>> = Vec::new();
    let mut cur: Vec<char> = Vec::new();
    let n = s.len();
    let mut i: usize = 0;
    while i < n
        invariant
            n == s@.len(),
            0 <= i <= n,
            done@.map_values(|p: Vec<char>| p@).push(cur@) == split_commas(s@.take(i as int)),
        decreases n - i,
    {
        let c = s[i];
        let ghost before = done@.map_values(|p: Vec<char>| p@).push(cur@);
        assert(s@.take(i + 1).drop_last() =~= s@.take(i as int));
        assert(s@.take(i + 1).last() == c);
        proof {
            lemma_split_commas_nonempty(s@.take(i as int));
        }
        if c == ',' {
            let finished = cur;
            done.push(finished);
            cur = Vec::new();
            assert(done@.map_values(|p: Vec<char>| p@).push(cur@) =~= before.push(seq![]));
        } else {
            cur.push(c);
            assert(done@.map_values(|p: Vec<char>| p@).push(cur@) =~= before.update(
                before.len() - 1,
                before.last().push(c),
            ));
        }
        i += 1;
    }
    assert(s@.take(n as int) =~= s@);
    done.push(cur);
    done
}

/// Reads `CORS_ALLOWED_ORIGINS`.
pub fn parse_cors_origins(value: Option<&str>) -> (r: Vec<String>)
    ensures
        strings_view(r@) == cors_origins_spec(opt_str_view(value)),
{
    match value {
        None => {
            let mut v: Vec<String> = Vec::new();
            v.push(String::from_str("http://localhost:5173"));
            assert(strings_view(v@) =~= seq!["http://localhost:5173"@]);
            v
        },
        Some(text) => {
            let cs = chars_of(text);
            let pieces = split_at_commas(cs.as_slice());
            let ghost pv = pieces@.map_values(|p: Vec<char>| p@);
            let mut out: Vec<String> = Vec::new();
            let mut i: usize = 0;
            while i < pieces.len()
                invariant
                    0 <= i <= pieces@.len(),
                    pv == pieces@.map_values(|p: Vec<char>| p@),
                    strings_view(out@) == nonempty_trimmed(pv.take(i as int)),
                decreases pieces@.len() - i,
            {
                let t = trim_chars(pieces[i].as_slice());
                assert(pv.take(i + 1).drop_last() =~= pv.take(i as int));
                assert(pv.take(i + 1).last() == pieces@[i as int]@);
                if t.len() > 0 {
                    let st = string_of(t.as_slice());
                    let ghost before = strings_view(out@);
                    out.push(st);
                    assert(strings_view(out@) =~= before.push(t@));
                }
                i += 1;
            }
            assert(pv.take(pieces@.len() as int) =~= pv);
            out
        },
    }
}

// ---------------------------------------------------------------------------
// The whole configuration
// ---------------------------------------------------------------------------
fn value_or(v: &Option<String>, default: &str) -> (r: String)
    ensures
        r@ == opt_view(*v).unwrap_or(default@),
{
    match v {
        Some(s) => s.clone(),
        None => String::from_str(default),
    }
}

fn as_str_opt(v: &Option<String>) -> (r: Option<&str>)
    ensures
        opt_str_view(r) == opt_view(*v),
{
    match v {
        Some(s) => Some(s.as_str()),
        None => None,
    }
}

impl AppConfig {
    /// Builds the configuration from the environment's values, with the
    /// development defaults for what is unset. Fails when `PORT` (default
    /// `3000`) is not a port number, or when the delivery mode is unknown.
    pub fn from_env(env: &EnvValues) -> (r: Result<AppConfig, ConfigError>)
        ensures
            parse_u16_spec(opt_view(env.port).unwrap_or("3000"@)) is None ==> (r matches Err(
                ConfigError::InvalidPort,
            )),
            parse_u16_spec(opt_view(env.port).unwrap_or("3000"@)) is Some && delivery_mode_spec(
                opt_view(env.email_delivery_mode),
            ) is None ==> (r matches Err(ConfigError::InvalidDeliveryMode(msg)) && msg@
                == "modo de entrega de email invalido: "@ + delivery_mode_name(
                opt_view(env.email_delivery_mode),
            )),
            r matches Ok(c) ==> {
                &&& parse_u16_spec(opt_view(env.port).unwrap_or("3000"@)) == Some(c.port)
                &&& c.database_path@ == opt_view(env.database_path).unwrap_or("dopablocker.db"@)
                &&& c.database_key@ == opt_view(env.sqlcipher_key).unwrap_or(
                    "dev-only-unsafe-key"@,
                )
                &&& c.firebase_project_id@ == opt_view(env.firebase_project_id).unwrap_or(
                    "dopablocker-dev"@,
                )
                &&& c.email_code_secret@ == opt_view(env.email_code_secret).unwrap_or(
                    "dev-only-unsafe-email-code-secret"@,
                )
                &&& delivery_mode_spec(opt_view(env.email_delivery_mode)) == Some(
                    c.email_delivery_mode,
                )
                &&& (c.smtp is Some <==> smtp_present(
                    opt_view(env.smtp_host),
                    opt_view(env.smtp_username),
                    opt_view(env.smtp_password),
                    opt_view(env.smtp_from),
                ))
                &&& (c.smtp matches Some(s) ==> {
                    &&& s.host@ == trimmed(opt_view(env.smtp_host).unwrap())
                    &&& s.username@ == trimmed(opt_view(env.smtp_username).unwrap())
                    &&& s.password@ == opt_view(env.smtp_password).unwrap()
                    &&& s.from@ == trimmed(opt_view(env.smtp_from).unwrap())
                    &&& s.port == smtp_port_spec(opt_view(env.smtp_port))
                    &&& (env.smtp_port is None ==> s.port == 587)
                })
                &&& strings_view(c.cors_allowed_origins@) == cors_origins_spec(
                    opt_view(env.cors_allowed_origins),
                )
            },
            (parse_u16_spec(opt_view(env.port).unwrap_or("3000"@)) is Some && delivery_mode_spec(
                opt_view(env.email_delivery_mode),
            ) is Some) ==> r is Ok,
    {
        let port_text = value_or(&env.port, "3000");
        let port_chars = chars_of(port_text.as_str());
        let port = match parse_u16(port_chars.as_slice()) {
            Some(p) => p,
            None => {
                return Err(ConfigError::InvalidPort);
            },
        };
        let database_path = value_or(&env.database_path, "dopablocker.db");
        let database_key = value_or(&env.sqlcipher_key, "dev-only-unsafe-key");
        let firebase_project_id = value_or(&env.firebase_project_id, "dopablocker-dev");
        let email_code_secret = value_or(&env.email_code_secret, "dev-only-unsafe-email-code-secret");
        let email_delivery_mode = match parse_email_delivery_mode(as_str_opt(&env.email_delivery_mode)) {
            Ok(m) => m,
            Err(msg) => {
                return Err(ConfigError::InvalidDeliveryMode(msg));
            },
        };
        let smtp = smtp_config_from_values(
            as_str_opt(&env.smtp_host),
            as_str_opt(&env.smtp_username),
            as_str_opt(&env.smtp_password),
            as_str_opt(&env.smtp_from),
            as_str_opt(&env.smtp_port),
        );
        let cors_allowed_origins = parse_cors_origins(as_str_opt(&env.cors_allowed_origins));
        Ok(AppConfig {
            port,
            database_path,
            database_key,
            firebase_project_id,
            email_code_secret,
            email_delivery_mode,
            smtp,
            cors_allowed_origins,
        })
    }
}


/// The SMTP port is `SMTP_PORT` when it parses as a port number, and the
/// submission port 587 otherwise, unset included.
pub proof fn lemma_smtp_port_defaults_to_submission()
    ensures
        smtp_port_spec(None) == 587,
        forall|p: Seq<char>| parse_u16_spec(p) is None ==> #[trigger] smtp_port_spec(Some(p)) == 587,
        forall|p: Seq<char>| #[trigger]
            parse_u16_spec(p) is Some ==> smtp_port_spec(Some(p)) == parse_u16_spec(p).unwrap(),
{
}

} // verus!
