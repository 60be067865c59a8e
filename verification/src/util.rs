//! Typed domain errors raised inside database work, their translation to API
//! errors, and the text forms of enums persisted in the database.
use vstd::prelude::*;

use crate::errors::{AppError, conflict};
use crate::models::{BlockMode, BlockedType, Platform};
use crate::text::{contains_seq, occurs_at, str_contains, str_eq};

verus! {

// ---------------------------------------------------------------------------
// ServiceError
// ---------------------------------------------------------------------------
/// Domain errors that services raise from inside a database call. They
/// travel as their tag inside the database error's message and are recovered
/// with `from_message`.
#[derive(Debug, Clone, Copy, PartialEq, Eq, Structural)]
pub enum ServiceError {
    LinkNotFound,
    LinkExpired,
    EmailCodeCooldown,
    EmailCodeRateLimited,
    EmailCodeNotFound,
    EmailCodeExpired,
    EmailCodeTooManyAttempts,
    EmailCodeInvalid,
    EmailTokenInvalid,
    EmailTokenExpired,
}

/// The stable tag of each domain error.
pub open spec fn tag_of(e: ServiceError) -> Seq<char> {
    match e {
        ServiceError::LinkNotFound => "LINK_NOT_FOUND"@,
        ServiceError::LinkExpired => "LINK_EXPIRED"@,
        ServiceError::EmailCodeCooldown => "EMAIL_CODE_COOLDOWN"@,
        ServiceError::EmailCodeRateLimited => "EMAIL_CODE_RATE_LIMITED"@,
        ServiceError::EmailCodeNotFound => "EMAIL_CODE_NOT_FOUND"@,
        ServiceError::EmailCodeExpired => "EMAIL_CODE_EXPIRED"@,
        ServiceError::EmailCodeTooManyAttempts => "EMAIL_CODE_TOO_MANY_ATTEMPTS"@,
        ServiceError::EmailCodeInvalid => "EMAIL_CODE_INVALID"@,
        ServiceError::EmailTokenInvalid => "EMAIL_TOKEN_INVALID"@,
        ServiceError::EmailTokenExpired => "EMAIL_TOKEN_EXPIRED"@,
    }
}

/// The domain error recovered from a message: the first error, in
/// declaration order, whose tag occurs in the message.
pub open spec fn from_message_spec(msg: Seq<char>) -> Option<ServiceError> {
    if contains_seq(msg, tag_of(ServiceError::LinkNotFound)) {
        Some(ServiceError::LinkNotFound)
    } else if contains_seq(msg, tag_of(ServiceError::LinkExpired)) {
        Some(ServiceError::LinkExpired)
    } else if contains_seq(msg, tag_of(ServiceError::EmailCodeCooldown)) {
        Some(ServiceError::EmailCodeCooldown)
    } else if contains_seq(msg, tag_of(ServiceError::EmailCodeRateLimited)) {
        Some(ServiceError::EmailCodeRateLimited)
    } else if contains_seq(msg, tag_of(ServiceError::EmailCodeNotFound)) {
        Some(ServiceError::EmailCodeNotFound)
    } else if contains_seq(msg, tag_of(ServiceError::EmailCodeExpired)) {
        Some(ServiceError::EmailCodeExpired)
    } else if contains_seq(msg, tag_of(ServiceError::EmailCodeTooManyAttempts)) {
        Some(ServiceError::EmailCodeTooManyAttempts)
    } else if contains_seq(msg, tag_of(ServiceError::EmailCodeInvalid)) {
        Some(ServiceError::EmailCodeInvalid)
    } else if contains_seq(msg, tag_of(ServiceError::EmailTokenInvalid)) {
        Some(ServiceError::EmailTokenInvalid)
    } else if contains_seq(msg, tag_of(ServiceError::EmailTokenExpired)) {
        Some(ServiceError::EmailTokenExpired)
    } else {
        None
    }
}

/// The client-facing message of each domain error (all answered as 400).
pub open spec fn service_message(e: ServiceError) -> Seq<char> {
    match e {
        ServiceError::LinkNotFound => "Código inválido ou já utilizado"@,
        ServiceError::LinkExpired => "Código expirado"@,
        ServiceError::EmailCodeCooldown => "Aguarde antes de pedir um novo codigo"@,
        ServiceError::EmailCodeRateLimited => "Limite de codigos por hora atingido"@,
        ServiceError::EmailCodeNotFound => "Codigo invalido ou expirado"@,
        ServiceError::EmailCodeExpired => "Codigo expirado"@,
        ServiceError::EmailCodeTooManyAttempts => "Muitas tentativas. Peca um novo codigo"@,
        ServiceError::EmailCodeInvalid => "Codigo invalido"@,
        ServiceError::EmailTokenInvalid => "Verificacao de email ausente ou invalida"@,
        ServiceError::EmailTokenExpired => "Verificacao de email expirada"@,
    }
}

impl ServiceError {
    /// The stable tag carried in the database error's message.
    pub fn tag(self) -> (r: &'static str)
        ensures
            r@ == tag_of(self),
    {
        match self {
            ServiceError::LinkNotFound => "LINK_NOT_FOUND",
            ServiceError::LinkExpired => "LINK_EXPIRED",
            ServiceError::EmailCodeCooldown => "EMAIL_CODE_COOLDOWN",
            ServiceError::EmailCodeRateLimited => "EMAIL_CODE_RATE_LIMITED",
            ServiceError::EmailCodeNotFound => "EMAIL_CODE_NOT_FOUND",
            ServiceError::EmailCodeExpired => "EMAIL_CODE_EXPIRED",
            ServiceError::EmailCodeTooManyAttempts => "EMAIL_CODE_TOO_MANY_ATTEMPTS",
            ServiceError::EmailCodeInvalid => "EMAIL_CODE_INVALID",
            ServiceError::EmailTokenInvalid => "EMAIL_TOKEN_INVALID",
            ServiceError::EmailTokenExpired => "EMAIL_TOKEN_EXPIRED",
        }
    }

    /// Recovers a domain error from an error message; `None` when no known
    /// tag occurs in it.
    pub fn from_message(msg: &str) -> (r: Option<ServiceError>)
        ensures
            r == from_message_spec(msg@),
    {
        if str_contains(msg, ServiceError::LinkNotFound.tag()) {
            Some(ServiceError::LinkNotFound)
        } else if str_contains(msg, ServiceError::LinkExpired.tag()) {
            Some(ServiceError::LinkExpired)
        } else if str_contains(msg, ServiceError::EmailCodeCooldown.tag()) {
            Some(ServiceError::EmailCodeCooldown)
        } else if str_contains(msg, ServiceError::EmailCodeRateLimited.tag()) {
            Some(ServiceError::EmailCodeRateLimited)
        } else if str_contains(msg, ServiceError::EmailCodeNotFound.tag()) {
            Some(ServiceError::EmailCodeNotFound)
        } else if str_contains(msg, ServiceError::EmailCodeExpired.tag()) {
            Some(ServiceError::EmailCodeExpired)
        } else if str_contains(msg, ServiceError::EmailCodeTooManyAttempts.tag()) {
            Some(ServiceError::EmailCodeTooManyAttempts)
        } else if str_contains(msg, ServiceError::EmailCodeInvalid.tag()) {
            Some(ServiceError::EmailCodeInvalid)
        } else if str_contains(msg, ServiceError::EmailTokenInvalid.tag()) {
            Some(ServiceError::EmailTokenInvalid)
        } else if str_contains(msg, ServiceError::EmailTokenExpired.tag()) {
            Some(ServiceError::EmailTokenExpired)
        } else {
            None
        }
    }

    /// The API error answered for this domain error: always 400, with a
    /// message per error.
    pub fn to_app_error(self) -> (r: AppError)
        ensures
            r matches AppError::BadRequest(m) && m@ == service_message(self),
    {
        let msg: &str = match self {
            ServiceError::LinkNotFound => "Código inválido ou já utilizado",
            ServiceError::LinkExpired => "Código expirado",
            ServiceError::EmailCodeCooldown => "Aguarde antes de pedir um novo codigo",
            ServiceError::EmailCodeRateLimited => "Limite de codigos por hora atingido",
            ServiceError::EmailCodeNotFound => "Codigo invalido ou expirado",
            ServiceError::EmailCodeExpired => "Codigo expirado",
            ServiceError::EmailCodeTooManyAttempts => "Muitas tentativas. Peca um novo codigo",
            ServiceError::EmailCodeInvalid => "Codigo invalido",
            ServiceError::EmailTokenInvalid => "Verificacao de email ausente ou invalida",
            ServiceError::EmailTokenExpired => "Verificacao de email expirada",
        };
        AppError::BadRequest(String::from_str(msg))
    }
}

// ---------------------------------------------------------------------------
// Database error messages to API errors
// ---------------------------------------------------------------------------
/// The API error for a failed database call whose error reads `msg`: the
/// domain error's translation when a tag occurs in it, otherwise a 500
/// carrying the message.
pub open spec fn db_error_spec(msg: Seq<char>, r: AppError) -> bool {
    match from_message_spec(msg) {
        Some(e) => r matches AppError::BadRequest(m) && m@ == service_message(e),
        None => r matches AppError::InternalServerError(m) && m@ == msg,
    }
}

/// Translates the message of a failed database call (`map_sqlite_error`).
pub fn map_db_error_message(msg: String) -> (r: AppError)
    ensures
        db_error_spec(msg@, r),
{
    match ServiceError::from_message(msg.as_str()) {
        Some(e) => e.to_app_error(),
        None => AppError::InternalServerError(msg),
    }
}

/// Translates the message of a failed account-creation transaction: a
/// uniqueness violation that is not a domain error becomes 409, everything
/// else goes through `map_db_error_message`.
pub fn map_register_error_message(msg: String) -> (r: AppError)
    ensures
        from_message_spec(msg@) is None && contains_seq(msg@, "UNIQUE"@) ==> (r matches AppError::Conflict(
            m,
        ) && m@ == "Falha ao criar usuario: "@ + msg@),
        !(from_message_spec(msg@) is None && contains_seq(msg@, "UNIQUE"@)) ==> db_error_spec(msg@, r),
{
    let domain = ServiceError::from_message(msg.as_str());
    if domain.is_none() && str_contains(msg.as_str(), "UNIQUE") {
        let mut m = String::from_str("Falha ao criar usuario: ");
        m.append(msg.as_str());
        AppError::Conflict(m)
    } else {
        map_db_error_message(msg)
    }
}

/// Translates the message of a failed insert whose uniqueness violation
/// means "already exists": 409 with `conflict_msg` when the message mentions
/// `UNIQUE`, else 500 carrying the message.
pub fn map_unique_violation(msg: String, conflict_msg: &str) -> (r: AppError)
    ensures
        contains_seq(msg@, "UNIQUE"@) ==> (r matches AppError::Conflict(m) && m@ == conflict_msg@),
        !contains_seq(msg@, "UNIQUE"@) ==> (r matches AppError::InternalServerError(m) && m@ == msg@),
{
    if str_contains(msg.as_str(), "UNIQUE") {
        conflict(conflict_msg)
    } else {
        AppError::InternalServerError(msg)
    }
}

// ---------------------------------------------------------------------------
// Enum <-> text, as persisted in the database
// ---------------------------------------------------------------------------
pub open spec fn block_mode_text(m: BlockMode) -> Seq<char> {
    match m {
        BlockMode::Personal => "personal"@,
        BlockMode::Parental => "parental"@,
    }
}

pub open spec fn platform_text(p: Platform) -> Seq<char> {
    match p {
        Platform::Windows => "windows"@,
        Platform::Android => "android"@,
    }
}

pub open spec fn blocked_type_text(t: BlockedType) -> Seq<char> {
    match t {
        BlockedType::Domain => "domain"@,
        BlockedType::App => "app"@,
        BlockedType::Keyword => "keyword"@,
    }
}

/// Reads a block mode from the database; anything unexpected is the least
/// privileged mode, `Personal`.
pub fn parse_block_mode(s: &str) -> (r: BlockMode)
    ensures
        r == (if s@ == "parental"@ {
            BlockMode::Parental
        } else {
            BlockMode::Personal
        }),
{
    if str_eq(s, "parental") {
        BlockMode::Parental
    } else {
        BlockMode::Personal
    }
}

/// Reads a platform from the database; anything unexpected is `Windows`.
pub fn parse_platform(s: &str) -> (r: Platform)
    ensures
        r == (if s@ == "android"@ {
            Platform::Android
        } else {
            Platform::Windows
        }),
{
    if str_eq(s, "android") {
        Platform::Android
    } else {
        Platform::Windows
    }
}

/// Reads a blocked-item type from the database; anything unexpected is
/// `Domain`.
pub fn parse_blocked_type(s: &str) -> (r: BlockedType)
    ensures
        r == (if s@ == "app"@ {
            BlockedType::App
        } else if s@ == "keyword"@ {
            BlockedType::Keyword
        } else {
            BlockedType::Domain
        }),
{
    if str_eq(s, "app") {
        BlockedType::App
    } else if str_eq(s, "keyword") {
        BlockedType::Keyword
    } else {
        BlockedType::Domain
    }
}

/// The text stored for a block mode.
pub fn block_mode_to_sql(mode: &BlockMode) -> (r: &'static str)
    ensures
        r@ == block_mode_text(*mode),
{
    match mode {
        BlockMode::Personal => "personal",
        BlockMode::Parental => "parental",
    }
}

/// The text stored for a platform.
pub fn platform_to_sql(p: &Platform) -> (r: &'static str)
    ensures
        r@ == platform_text(*p),
{
    match p {
        Platform::Windows => "windows",
        Platform::Android => "android",
    }
}

/// The text stored for a blocked-item type.
pub fn blocked_type_to_sql(t: &BlockedType) -> (r: &'static str)
    ensures
        r@ == blocked_type_text(*t),
{
    match t {
        BlockedType::Domain => "domain",
        BlockedType::App => "app",
        BlockedType::Keyword => "keyword",
    }
}

/// The earlier per-service name of `blocked_type_to_sql`.
pub fn item_type_to_str(t: &BlockedType) -> (r: &'static str)
    ensures
        r@ == blocked_type_text(*t),
{
    blocked_type_to_sql(t)
}

/// The earlier per-service name of `parse_blocked_type`.
pub fn str_to_item_type(s: &str) -> (r: BlockedType)
    ensures
        r == (if s@ == "app"@ {
            BlockedType::App
        } else if s@ == "keyword"@ {
            BlockedType::Keyword
        } else {
            BlockedType::Domain
        }),
{
    parse_blocked_type(s)
}

/// The earlier per-service name of `platform_to_sql`.
pub fn platform_to_str(p: &Platform) -> (r: &'static str)
    ensures
        r@ == platform_text(*p),
{
    platform_to_sql(p)
}

/// The earlier per-service name of `parse_platform`.
pub fn str_to_platform(s: &str) -> (r: Platform)
    ensures
        r == (if s@ == "android"@ {
            Platform::Android
        } else {
            Platform::Windows
        }),
{
    parse_platform(s)
}

// ---------------------------------------------------------------------------
// Laws
// ---------------------------------------------------------------------------
/// Reading back the text stored for a block mode gives the same mode.
pub proof fn lemma_block_mode_round_trip(m: BlockMode)
    ensures
        (if block_mode_text(m) == "parental"@ {
            BlockMode::Parental
        } else {
            BlockMode::Personal
        }) == m,
{
    reveal_strlit("personal");
    reveal_strlit("parental");
    if m == BlockMode::Personal {
        assert("personal"@[0] != "parental"@[0] || "personal"@[1] != "parental"@[1]);
    }
}

/// Reading back the text stored for a platform gives the same platform.
pub proof fn lemma_platform_round_trip(p: Platform)
    ensures
        (if platform_text(p) == "android"@ {
            Platform::Android
        } else {
            Platform::Windows
        }) == p,
{
    reveal_strlit("windows");
    reveal_strlit("android");
    if p == Platform::Windows {
        assert("windows"@[0] != "android"@[0]);
    }
}

/// Reading back the text stored for a blocked-item type gives the same type.
pub proof fn lemma_blocked_type_round_trip(t: BlockedType)
    ensures
        (if blocked_type_text(t) == "app"@ {
            BlockedType::App
        } else if blocked_type_text(t) == "keyword"@ {
            BlockedType::Keyword
        } else {
            BlockedType::Domain
        }) == t,
{
    reveal_strlit("domain");
    reveal_strlit("app");
    reveal_strlit("keyword");
    if t == BlockedType::Domain {
        assert("domain"@.len() != "app"@.len());
        assert("domain"@.len() != "keyword"@.len());
    } else if t == BlockedType::Keyword {
        assert("keyword"@.len() != "app"@.len());
    }
}

proof fn lemma_contains_self(s: Seq<char>)
    ensures
        contains_seq(s, s),
{
    assert(s.subrange(0, s.len() as int) =~= s);
    assert(occurs_at(s, s, 0));
}

proof fn lemma_longer_absent(hay: Seq<char>, needle: Seq<char>)
    requires
        needle.len() > hay.len(),
    ensures
        !contains_seq(hay, needle),
{
}

/// A needle with a character the haystack lacks does not occur in it.
proof fn lemma_char_absent(hay: Seq<char>, needle: Seq<char>, k: int)
    requires
        0 <= k < needle.len(),
        !hay.contains(needle[k]),
    ensures
        !contains_seq(hay, needle),
{
    assert forall|i: int| !occurs_at(hay, needle, i) by {
        if occurs_at(hay, needle, i) {
            assert(hay.subrange(i, i + needle.len())[k] == needle[k]);
            assert(hay[i + k] == needle[k]);
        }
    }
}

/// Every domain error survives the trip through its tag: the tag alone is
/// read back as the same error.
#[verifier::spinoff_prover]
#[verifier::rlimit(40)]
pub proof fn lemma_service_error_tag_round_trip(e: ServiceError)
    ensures
        from_message_spec(tag_of(e)) == Some(e),
{
    reveal_strlit("LINK_NOT_FOUND");
    reveal_strlit("LINK_EXPIRED");
    reveal_strlit("EMAIL_CODE_COOLDOWN");
    reveal_strlit("EMAIL_CODE_RATE_LIMITED");
    reveal_strlit("EMAIL_CODE_NOT_FOUND");
    reveal_strlit("EMAIL_CODE_EXPIRED");
    reveal_strlit("EMAIL_CODE_TOO_MANY_ATTEMPTS");
    reveal_strlit("EMAIL_CODE_INVALID");
    reveal_strlit("EMAIL_TOKEN_INVALID");
    reveal_strlit("EMAIL_TOKEN_EXPIRED");
    let lnf = tag_of(ServiceError::LinkNotFound);
    let le = tag_of(ServiceError::LinkExpired);
    let ecc = tag_of(ServiceError::EmailCodeCooldown);
    let ecrl = tag_of(ServiceError::EmailCodeRateLimited);
    let ecnf = tag_of(ServiceError::EmailCodeNotFound);
    let ece = tag_of(ServiceError::EmailCodeExpired);
    let ectma = tag_of(ServiceError::EmailCodeTooManyAttempts);
    let eci = tag_of(ServiceError::EmailCodeInvalid);
    let eti = tag_of(ServiceError::EmailTokenInvalid);
    let ete = tag_of(ServiceError::EmailTokenExpired);
    lemma_contains_self(tag_of(e));
    // Index 3 of both LINK_ tags is 'K'; index 9 of LINK_NOT_FOUND is 'F';
    // index 6 of LINK_EXPIRED is 'X'.
    assert(lnf[3] == 'K' && le[3] == 'K' && lnf[9] == 'F' && le[6] == 'X');
    match e {
        ServiceError::LinkNotFound => {},
        ServiceError::LinkExpired => {
            lemma_longer_absent(le, lnf);
        },
        ServiceError::EmailCodeCooldown => {
            lemma_char_absent(ecc, lnf, 3);
            lemma_char_absent(ecc, le, 3);
        },
        ServiceError::EmailCodeRateLimited => {
            lemma_char_absent(ecrl, lnf, 3);
            lemma_char_absent(ecrl, le, 3);
            assert(ecc[17] == 'W');
            lemma_char_absent(ecrl, ecc, 17);
        },
        ServiceError::EmailCodeNotFound => {
            lemma_char_absent(ecnf, lnf, 3);
            lemma_char_absent(ecnf, le, 3);
            assert(ecc[17] == 'W');
            lemma_char_absent(ecnf, ecc, 17);
            lemma_longer_absent(ecnf, ecrl);
        },
        ServiceError::EmailCodeExpired => {
            lemma_char_absent(ece, lnf, 3);
            lemma_char_absent(ece, le, 3);
            lemma_longer_absent(ece, ecc);
            lemma_longer_absent(ece, ecrl);
            lemma_longer_absent(ece, ecnf);
        },
        ServiceError::EmailCodeTooManyAttempts => {
            lemma_char_absent(ectma, lnf, 3);
            lemma_char_absent(ectma, le, 3);
            assert(ecc[17] == 'W');
            lemma_char_absent(ectma, ecc, 17);
            assert(ecrl[11] == 'R');
            lemma_char_absent(ectma, ecrl, 11);
            assert(ecnf[15] == 'F');
            lemma_char_absent(ectma, ecnf, 15);
            assert(ece[12] == 'X');
            lemma_char_absent(ectma, ece, 12);
        },
        ServiceError::EmailCodeInvalid => {
            lemma_char_absent(eci, lnf, 3);
            lemma_char_absent(eci, le, 3);
            lemma_longer_absent(eci, ecc);
            lemma_longer_absent(eci, ecrl);
            lemma_longer_absent(eci, ecnf);
            assert(ece[12] == 'X');
            lemma_char_absent(eci, ece, 12);
            lemma_longer_absent(eci, ectma);
        },
        ServiceError::EmailTokenInvalid => {
            lemma_char_absent(eti, lnf, 9);
            lemma_char_absent(eti, le, 6);
            assert(ecc[6] == 'C');
            lemma_char_absent(eti, ecc, 6);
            lemma_longer_absent(eti, ecrl);
            lemma_longer_absent(eti, ecnf);
            assert(ece[6] == 'C');
            lemma_char_absent(eti, ece, 6);
            lemma_longer_absent(eti, ectma);
            assert(eci[6] == 'C');
            lemma_char_absent(eti, eci, 6);
        },
        ServiceError::EmailTokenExpired => {
            lemma_char_absent(ete, lnf, 9);
            // LINK_EXPIRED: its only possible start is where EMAIL_TOKEN_EXPIRED
            // has an 'L' (index 4), and the next character there is '_'.
            assert forall|i: int| !occurs_at(ete, le, i) by {
                if occurs_at(ete, le, i) {
                    assert(ete.subrange(i, i + le.len())[0] == le[0]);
                    assert(ete.subrange(i, i + le.len())[1] == le[1]);
                    assert(ete[i] == 'L');
                    assert(ete[i + 1] == 'I');
                }
            }
            assert(ecc[6] == 'C');
            lemma_char_absent(ete, ecc, 6);
            lemma_longer_absent(ete, ecrl);
            lemma_longer_absent(ete, ecnf);
            assert(ece[6] == 'C');
            lemma_char_absent(ete, ece, 6);
            lemma_longer_absent(ete, ectma);
            assert(eci[6] == 'C');
            lemma_char_absent(ete, eci, 6);
            assert(eti[14] == 'V');
            lemma_char_absent(ete, eti, 14);
        },
    }
}


/// The characters tags are written with.
pub open spec fn is_tag_char(c: char) -> bool {
    ('A' <= c <= 'Z') || c == '_'
}

/// No domain error's tag occurs in `s`.
pub open spec fn mentions_no_tag(s: Seq<char>) -> bool {
    forall|e: ServiceError| !contains_seq(s, #[trigger] tag_of(e))
}

proof fn lemma_tag_shape(e: ServiceError)
    ensures
        tag_of(e).len() >= 12,
        forall|i: int| 0 <= i < tag_of(e).len() ==> is_tag_char(#[trigger] tag_of(e)[i]),
{
    reveal_strlit("LINK_NOT_FOUND");
    reveal_strlit("LINK_EXPIRED");
    reveal_strlit("EMAIL_CODE_COOLDOWN");
    reveal_strlit("EMAIL_CODE_RATE_LIMITED");
    reveal_strlit("EMAIL_CODE_NOT_FOUND");
    reveal_strlit("EMAIL_CODE_EXPIRED");
    reveal_strlit("EMAIL_CODE_TOO_MANY_ATTEMPTS");
    reveal_strlit("EMAIL_CODE_INVALID");
    reveal_strlit("EMAIL_TOKEN_INVALID");
    reveal_strlit("EMAIL_TOKEN_EXPIRED");
}

/// An occurrence of a word of tag characters in `pre + mid + post` lies
/// inside one of the three parts when the characters around `mid` are not
/// tag characters.
proof fn lemma_occurrence_in_a_part(pre: Seq<char>, mid: Seq<char>, post: Seq<char>, needle: Seq<char>)
    requires
        needle.len() > 0,
        forall|i: int| 0 <= i < needle.len() ==> is_tag_char(#[trigger] needle[i]),
        pre.len() > 0 ==> !is_tag_char(pre.last()),
        post.len() > 0 ==> !is_tag_char(post[0]),
        contains_seq(pre + mid + post, needle),
    ensures
        contains_seq(pre, needle) || contains_seq(mid, needle) || contains_seq(post, needle),
{
    let hay = pre + mid + post;
    let i = choose|i: int| occurs_at(hay, needle, i);
    let n = needle.len() as int;
    let a = pre.len() as int;
    let b = a + mid.len();
    assert(hay.subrange(i, i + n) == needle);
    if i < a && a < i + n {
        assert(hay[a - 1] == pre.last());
        assert(needle[a - 1 - i] == hay.subrange(i, i + n)[a - 1 - i]);
        assert(false);
    } else if i < b && b < i + n {
        assert(hay[b] == post[0]);
        assert(needle[b - i] == hay.subrange(i, i + n)[b - i]);
        assert(false);
    } else if i + n <= a {
        assert(pre.subrange(i, i + n) =~= hay.subrange(i, i + n));
        assert(occurs_at(pre, needle, i));
    } else if i >= a && i + n <= b {
        assert(mid.subrange(i - a, i - a + n) =~= hay.subrange(i, i + n));
        assert(occurs_at(mid, needle, i - a));
    } else {
        assert(post.subrange(i - b, i - b + n) =~= hay.subrange(i, i + n));
        assert(occurs_at(post, needle, i - b));
    }
}

/// A domain error is read back from any message that carries its tag
/// between text mentioning no tag, as long as the characters around the tag
/// are not capital letters or underscores; such a message is answered with
/// the error's own 400.
pub proof fn lemma_service_error_recognized_in_message(e: ServiceError, pre: Seq<char>, post: Seq<char>)
    requires
        pre.len() > 0 ==> !is_tag_char(pre.last()),
        post.len() > 0 ==> !is_tag_char(post[0]),
        mentions_no_tag(pre),
        mentions_no_tag(post),
    ensures
        from_message_spec(pre + tag_of(e) + post) == Some(e),
        forall|r: AppError| db_error_spec(pre + tag_of(e) + post, r) <==> (r matches AppError::BadRequest(
            m,
        ) && m@ == service_message(e)),
{
    let mid = tag_of(e);
    let hay = pre + mid + post;
    lemma_service_error_tag_round_trip(e);
    assert forall|t: ServiceError| #[trigger] contains_seq(hay, tag_of(t)) <==> contains_seq(mid, tag_of(t)) by {
        lemma_tag_shape(t);
        if contains_seq(hay, tag_of(t)) {
            lemma_occurrence_in_a_part(pre, mid, post, tag_of(t));
        }
        if contains_seq(mid, tag_of(t)) {
            let j = choose|j: int| occurs_at(mid, tag_of(t), j);
            let n = tag_of(t).len() as int;
            assert(hay.subrange(pre.len() + j, pre.len() + j + n) =~= mid.subrange(j, j + n));
            assert(occurs_at(hay, tag_of(t), pre.len() + j));
        }
    }
}

/// What a domain error carried out of a database call reads like once the
/// call fails: `Other("<tag>")`. The error is recognized in it.
pub proof fn lemma_service_error_survives_database_error(e: ServiceError)
    ensures
        from_message_spec("Other(\""@ + tag_of(e) + "\")"@) == Some(e),
{
    reveal_strlit("Other(\"");
    reveal_strlit("\")");
    let pre = "Other(\""@;
    let post = "\")"@;
    assert forall|t: ServiceError| !contains_seq(pre, #[trigger] tag_of(t)) by {
        lemma_tag_shape(t);
    }
    assert forall|t: ServiceError| !contains_seq(post, #[trigger] tag_of(t)) by {
        lemma_tag_shape(t);
    }
    assert(!is_tag_char(pre.last()));
    assert(!is_tag_char(post[0]));
    lemma_service_error_recognized_in_message(e, pre, post);
}

} // verus!
