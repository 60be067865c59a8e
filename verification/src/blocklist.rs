//! Blocklist entries: how a submitted value is normalized and checked, and
//! the validator the children's devices poll with.
use vstd::prelude::*;

use crate::errors::{AppError, bad_request, not_found};
use crate::models::BlockedType;
use crate::numfmt::{decimal_of, digits_of, i64_to_decimal, lemma_decimal_of_injective};
use crate::text::{
    all_ascii, ascii_lower_seq, lemma_trimmed_keeps_ascii, before_first, before_first_char, chars_of, contains, contains_char, contains_seq, has_prefix,
    occurs_at, occurs_at_exec, slice_chars, starts_with, str_eq, string_of, to_lowercase, trim,
    trimmed, unicode_lowercase,
};

verus! {

// ---------------------------------------------------------------------------
// Domain normalization
// ---------------------------------------------------------------------------
/// The first position where `needle` occurs in `hay`.
pub open spec fn first_occurrence(hay: Seq<char>, needle: Seq<char>, i: int) -> bool {
    occurs_at(hay, needle, i) && forall|j: int| 0 <= j < i ==> !occurs_at(hay, needle, j)
}

/// `s` without a leading `scheme://` (everything up to the first `://`).
pub open spec fn without_scheme(s: Seq<char>) -> Seq<char> {
    if contains_seq(s, "://"@) {
        s.skip((choose|i: int| first_occurrence(s, "://"@, i)) + 3)
    } else {
        s
    }
}

/// `s` without a leading `www.`.
pub open spec fn without_www(s: Seq<char>) -> Seq<char> {
    if has_prefix(s, "www."@) {
        s.skip(4)
    } else {
        s
    }
}

/// The host a blocklisted domain stands for: trimmed and lowercased, with
/// any `scheme://`, any path (from the first `/`) and a leading `www.`
/// removed; `http://www.X.com/path`, `X.COM` and `x.com` all become `x.com`.
pub open spec fn normalized_domain(s: Seq<char>) -> Seq<char> {
    without_www(before_first(without_scheme(unicode_lowercase(trimmed(s))), '/'))
}

/// The value stored for a blocklist entry: domains as above, apps and
/// keywords trimmed and lowercased.
pub open spec fn normalized_value(t: BlockedType, value: Seq<char>) -> Seq<char> {
    match t {
        BlockedType::Domain => normalized_domain(value),
        _ => unicode_lowercase(trimmed(value)),
    }
}

proof fn lemma_scheme_len()
    ensures
        "://"@.len() == 3,
        "www."@.len() == 4,
{
    reveal_strlit("://");
    reveal_strlit("www.");
}

/// The first occurrence of `needle` in `hay`, if any.
fn find_first(hay: &[char], needle: &[char]) -> (r: Option<usize>)
    ensures
        match r {
            Some(i) => first_occurrence(hay@, needle@, i as int),
            None => !contains_seq(hay@, needle@),
        },
{
    if needle.len() > hay.len() {
        assert forall|i: int| !occurs_at(hay@, needle@, i) by {}
        return None;
    }
    let last = hay.len() - needle.len();
    let mut i: usize = 0;
    loop
        invariant
            last == hay@.len() - needle@.len(),
            0 <= i <= last,
            forall|j: int| 0 <= j < i ==> !occurs_at(hay@, needle@, j),
        ensures
            forall|j: int| 0 <= j <= last ==> !occurs_at(hay@, needle@, j),
        decreases last - i,
    {
        if occurs_at_exec(hay, needle, i) {
            return Some(i);
        }
        if i == last {
            break;
        }
        i += 1;
    }
    assert forall|j: int| !occurs_at(hay@, needle@, j) by {
        if 0 <= j <= last {
        }
    }
    None
}

/// Normalizes a domain for the blocklist (see `normalized_domain`).
pub fn normalize_domain(value: &str) -> (r: String)
    ensures
        r@ == normalized_domain(value@),
        !r@.contains('/'),
        all_ascii(value@) ==> unicode_lowercase(trimmed(value@)) == ascii_lower_seq(trimmed(value@)),
{
    proof {
        lemma_scheme_len();
        lemma_normalized_domain_has_no_path(value@);
        if all_ascii(value@) {
            lemma_trimmed_keeps_ascii(value@);
        }
    }
    let t = trim(value);
    let lower = to_lowercase(t.as_str());
    let cs = chars_of(lower.as_str());
    let sep = chars_of("://");
    let after: Vec<char> = match find_first(cs.as_slice(), sep.as_slice()) {
        Some(i) => {
            assert(occurs_at(cs@, sep@, i as int));
            let n = cs.len();
            assert(i + 3 <= n);
            proof {
                let k = choose|k: int| first_occurrence(cs@, "://"@, k);
                if k < i {
                    assert(!occurs_at(cs@, "://"@, k));
                } else if k > i {
                    assert(!occurs_at(cs@, "://"@, i as int));
                }
                assert(k == i);
            }
            slice_chars(cs.as_slice(), i + 3, n)
        },
        None => cs,
    };
    let host = before_first_char(after.as_slice(), '/');
    let www = chars_of("www.");
    if starts_with(host.as_slice(), www.as_slice()) {
        let rest = slice_chars(host.as_slice(), 4, host.len());
        string_of(rest.as_slice())
    } else {
        string_of(host.as_slice())
    }
}

// ---------------------------------------------------------------------------
// Adding an entry
// ---------------------------------------------------------------------------
/// Normalizes and checks a submitted value: blank after normalization is a
/// 400, and so is a domain without a dot.
pub fn validate_blocked_value(item_type: BlockedType, value: &str) -> (r: Result<String, AppError>)
    ensures
        normalized_value(item_type, value@).len() == 0 ==> (r matches Err(AppError::BadRequest(m))
            && m@ == "value não pode ser vazio"@),
        normalized_value(item_type, value@).len() > 0 && item_type == BlockedType::Domain
            && !normalized_value(item_type, value@).contains('.') ==> (r matches Err(
            AppError::BadRequest(m),
        ) && m@ == "domínio deve conter pelo menos um ponto (ex: instagram.com)"@),
        r matches Ok(v) ==> v@ == normalized_value(item_type, value@) && v@.len() > 0 && (item_type
            == BlockedType::Domain ==> v@.contains('.')),
        all_ascii(value@) ==> unicode_lowercase(trimmed(value@)) == ascii_lower_seq(trimmed(value@)),
        normalized_value(item_type, value@).len() > 0 && (item_type == BlockedType::Domain
            ==> normalized_value(item_type, value@).contains('.')) ==> r is Ok,
        item_type == BlockedType::Domain && r is Ok ==> !r.unwrap()@.contains('/'),
{
    let v = match item_type {
        BlockedType::Domain => normalize_domain(value),
        _ => {
            let t = trim(value);
            proof {
                if all_ascii(value@) {
                    lemma_trimmed_keeps_ascii(value@);
                }
            }
            to_lowercase(t.as_str())
        },
    };
    let cs = chars_of(v.as_str());
    if cs.len() == 0 {
        return Err(bad_request("value não pode ser vazio"));
    }
    let is_domain = match item_type {
        BlockedType::Domain => true,
        _ => false,
    };
    if is_domain && !contains_char(cs.as_slice(), '.') {
        return Err(bad_request("domínio deve conter pelo menos um ponto (ex: instagram.com)"));
    }
    Ok(v)
}

/// Deleting an entry that is not the caller's (or does not exist) changes
/// no row and answers 404.
pub fn check_item_deleted(changes: usize) -> (r: Result<(), AppError>)
    ensures
        changes == 0 ==> (r matches Err(AppError::NotFound(m)) && m@ == "Item não encontrado"@),
        changes > 0 ==> r is Ok,
{
    if changes == 0 {
        Err(not_found("Item não encontrado"))
    } else {
        Ok(())
    }
}

// ---------------------------------------------------------------------------
// ETag
// ---------------------------------------------------------------------------
/// The weak validator of a blocklist: `"<count>-<latest created_at>"`,
/// quoted as HTTP wants.
pub open spec fn etag_spec(count: int, max_created: Option<Seq<char>>) -> Seq<char> {
    "\""@ + decimal_of(count) + "-"@ + max_created.unwrap_or(""@) + "\""@
}

/// The blocklist's ETag, from its entry count and latest creation time.
pub fn format_blocklist_etag(count: i64, max_created: Option<&str>) -> (r: String)
    ensures
        r@ == etag_spec(
            count as int,
            match max_created {
                Some(s) => Some(s@),
                None => None,
            },
        ),
{
    let digits = i64_to_decimal(count);
    let mut s = String::from_str("\"");
    let d = string_of(digits.as_slice());
    s.append(d.as_str());
    s.append("-");
    match max_created {
        Some(m) => s.append(m),
        None => s.append(""),
    }
    s.append("\"");
    s
}

/// A poll whose `If-None-Match` carries the current ETag is answered
/// `304 Not Modified` without a body.
pub fn etag_matches(if_none_match: Option<&str>, etag: &str) -> (r: bool)
    ensures
        r == (if_none_match matches Some(v) && v@ == etag@),
{
    match if_none_match {
        Some(v) => str_eq(v, etag),
        None => false,
    }
}

proof fn lemma_decimal_shape(n: int)
    ensures
        decimal_of(n).len() >= 1,
        forall|k: int| 1 <= k < decimal_of(n).len() ==> #[trigger] decimal_of(n)[k] != '-',
{
    let m: nat = if n < 0 { (-n) as nat } else { n as nat };
    lemma_digits_shape(m);
    if n < 0 {
        assert forall|k: int| 1 <= k < decimal_of(n).len() implies #[trigger] decimal_of(n)[k] != '-' by {
            assert(decimal_of(n)[k] == digits_of(m)[k - 1]);
        }
    }
}

proof fn lemma_digits_shape(m: nat)
    ensures
        digits_of(m).len() >= 1,
        forall|k: int| 0 <= k < digits_of(m).len() ==> #[trigger] digits_of(m)[k] != '-',
    decreases m,
{
    if m >= 10 {
        lemma_digits_shape(m / 10);
        assert forall|k: int| 0 <= k < digits_of(m).len() implies #[trigger] digits_of(m)[k] != '-' by {
            if k < digits_of(m / 10).len() {
                assert(digits_of(m)[k] == digits_of(m / 10)[k]);
            }
        }
    }
}

/// Two blocklists get the same ETag only when they have the same count and
/// the same latest creation time: any addition or removal is seen.
pub proof fn lemma_etag_injective(c1: int, t1: Seq<char>, c2: int, t2: Seq<char>)
    requires
        etag_spec(c1, Some(t1)) == etag_spec(c2, Some(t2)),
    ensures
        c1 == c2,
        t1 == t2,
{
    reveal_strlit("\"");
    reveal_strlit("-");
    let d1 = decimal_of(c1);
    let d2 = decimal_of(c2);
    let l1: int = d1.len() as int;
    let l2: int = d2.len() as int;
    let s1 = etag_spec(c1, Some(t1));
    let s2 = etag_spec(c2, Some(t2));
    lemma_decimal_shape(c1);
    lemma_decimal_shape(c2);
    assert(s1 =~= seq!['"'] + d1 + seq!['-'] + t1 + seq!['"']);
    assert(s2 =~= seq!['"'] + d2 + seq!['-'] + t2 + seq!['"']);
    if l1 < l2 {
        assert(s1[l1 + 1] == '-');
        assert(s2[l1 + 1] == d2[l1]);
        assert(false);
    } else if l2 < l1 {
        assert(s2[l2 + 1] == '-');
        assert(s1[l2 + 1] == d1[l2]);
        assert(false);
    }
    assert(d1 =~= s1.subrange(1, l1 + 1));
    assert(d2 =~= s2.subrange(1, l2 + 1));
    lemma_decimal_of_injective(c1, c2);
    assert(t1 =~= s1.subrange(l1 + 2, s1.len() - 1));
    assert(t2 =~= s2.subrange(l2 + 2, s2.len() - 1));
}


proof fn lemma_before_first_lacks(s: Seq<char>, c: char)
    ensures
        !before_first(s, c).contains(c),
    decreases s.len(),
{
    if s.len() > 0 && s[0] != c {
        lemma_before_first_lacks(s.drop_first(), c);
        let t = before_first(s.drop_first(), c);
        assert(before_first(s, c) =~= seq![s[0]] + t);
        if before_first(s, c).contains(c) {
            let k = choose|k: int| 0 <= k < before_first(s, c).len() && before_first(s, c)[k] == c;
            assert(k > 0);
            assert(t[k - 1] == c);
        }
    }
}

/// A normalized domain never holds a `/`: whatever path follows the host
/// (with or without a `scheme://` before it) is dropped, so the stored
/// entry is a bare host that a DNS query name can match.
pub proof fn lemma_normalized_domain_has_no_path(s: Seq<char>)
    ensures
        !normalized_domain(s).contains('/'),
{
    reveal_strlit("www.");
    let host = before_first(without_scheme(unicode_lowercase(trimmed(s))), '/');
    lemma_before_first_lacks(without_scheme(unicode_lowercase(trimmed(s))), '/');
    if has_prefix(host, "www."@) {
        let r = host.skip(4);
        if r.contains('/') {
            let k = choose|k: int| 0 <= k < r.len() && r[k] == '/';
            assert(host[k + 4] == '/');
        }
    }
}

} // verus!
