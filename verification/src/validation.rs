//! Validation of routing-rule inputs: country codes, domain patterns and
//! geosite categories.

use vstd::prelude::*;

verus! {

use vstd::string::StrSliceExecFns;
use vstd::string::StringExecFns;
use crate::strutil::str_eq;

/// How a routing-rule input can be rejected, carrying the offending value.
#[derive(Debug, PartialEq)]
pub enum ValidationError {
    InvalidCountryCode(String),
    InvalidIpCidr(String),
    InvalidDomainPattern(String),
    InvalidGeoSiteCategory(String),
    IndexOutOfBounds(usize),
}

/// The ISO country codes accepted in geo-ip rules, as a pair of uppercase
/// letters.
pub open spec fn spec_is_valid_country_pair(a: char, b: char) -> bool {
    if a == 'A' {
        b == 'D' || b == 'E' || b == 'F' || b == 'G' || b == 'I' || b == 'L' || b == 'M' || b == 'O' ||
        b == 'Q' || b == 'R' || b == 'S' || b == 'T' || b == 'U' || b == 'W' || b == 'X' || b == 'Z'
    } else if a == 'B' {
        b == 'A' || b == 'B' || b == 'D' || b == 'E' || b == 'F' || b == 'G' || b == 'H' || b == 'I' ||
        b == 'J' || b == 'L' || b == 'M' || b == 'N' || b == 'O' || b == 'Q' || b == 'R' || b == 'S' ||
        b == 'T' || b == 'V' || b == 'W' || b == 'Y' || b == 'Z'
    } else if a == 'C' {
        b == 'A' || b == 'C' || b == 'D' || b == 'F' || b == 'G' || b == 'H' || b == 'I' || b == 'K' ||
        b == 'L' || b == 'M' || b == 'N' || b == 'O' || b == 'R' || b == 'U' || b == 'V' || b == 'W' ||
        b == 'X' || b == 'Y' || b == 'Z'
    } else if a == 'D' {
        b == 'E' || b == 'J' || b == 'K' || b == 'M' || b == 'O' || b == 'Z'
    } else if a == 'E' {
        b == 'C' || b == 'E' || b == 'G' || b == 'H' || b == 'R' || b == 'S' || b == 'T'
    } else if a == 'F' {
        b == 'I' || b == 'J' || b == 'K' || b == 'M' || b == 'O' || b == 'R'
    } else if a == 'G' {
        b == 'A' || b == 'B' || b == 'D' || b == 'E' || b == 'F' || b == 'G' || b == 'H' || b == 'I' ||
        b == 'L' || b == 'M' || b == 'N' || b == 'P' || b == 'Q' || b == 'R' || b == 'S' || b == 'T' ||
        b == 'U' || b == 'W' || b == 'Y'
    } else if a == 'H' {
        b == 'K' || b == 'M' || b == 'N' || b == 'R' || b == 'T' || b == 'U'
    } else if a == 'I' {
        b == 'D' || b == 'E' || b == 'L' || b == 'M' || b == 'N' || b == 'O' || b == 'Q' || b == 'R' ||
        b == 'S' || b == 'T'
    } else if a == 'J' {
        b == 'E' || b == 'M' || b == 'O' || b == 'P'
    } else if a == 'K' {
        b == 'E' || b == 'G' || b == 'H' || b == 'I' || b == 'M' || b == 'N' || b == 'P' || b == 'R' ||
        b == 'W' || b == 'Y' || b == 'Z'
    } else if a == 'L' {
        b == 'A' || b == 'B' || b == 'C' || b == 'I' || b == 'K' || b == 'R' || b == 'S' || b == 'T' ||
        b == 'U' || b == 'V' || b == 'Y'
    } else if a == 'M' {
        b == 'A' || b == 'C' || b == 'D' || b == 'E' || b == 'F' || b == 'G' || b == 'H' || b == 'K' ||
        b == 'L' || b == 'M' || b == 'N' || b == 'O' || b == 'P' || b == 'Q' || b == 'R' || b == 'S' ||
        b == 'T' || b == 'U' || b == 'V' || b == 'W' || b == 'X' || b == 'Y' || b == 'Z'
    } else if a == 'N' {
        b == 'A' || b == 'C' || b == 'E' || b == 'F' || b == 'G' || b == 'I' || b == 'L' || b == 'O' ||
        b == 'P' || b == 'R' || b == 'U' || b == 'Z'
    } else if a == 'O' {
        b == 'M'
    } else if a == 'P' {
        b == 'A' || b == 'E' || b == 'F' || b == 'G' || b == 'H' || b == 'K' || b == 'L' || b == 'M' ||
        b == 'N' || b == 'R' || b == 'S' || b == 'T' || b == 'W' || b == 'Y'
    } else if a == 'Q' {
        b == 'A'
    } else if a == 'R' {
        b == 'E' || b == 'O' || b == 'S' || b == 'U' || b == 'W'
    } else if a == 'S' {
        b == 'A' || b == 'B' || b == 'C' || b == 'D' || b == 'E' || b == 'G' || b == 'H' || b == 'I' ||
        b == 'J' || b == 'K' || b == 'L' || b == 'M' || b == 'N' || b == 'O' || b == 'R' || b == 'S' ||
        b == 'T' || b == 'V' || b == 'X' || b == 'Y' || b == 'Z'
    } else if a == 'T' {
        b == 'C' || b == 'D' || b == 'F' || b == 'G' || b == 'H' || b == 'J' || b == 'K' || b == 'L' ||
        b == 'M' || b == 'N' || b == 'O' || b == 'R' || b == 'T' || b == 'V' || b == 'W' || b == 'Z'
    } else if a == 'U' {
        b == 'A' || b == 'G' || b == 'M' || b == 'S' || b == 'Y' || b == 'Z'
    } else if a == 'V' {
        b == 'A' || b == 'C' || b == 'E' || b == 'G' || b == 'I' || b == 'N' || b == 'U'
    } else if a == 'W' {
        b == 'F' || b == 'S'
    } else if a == 'Y' {
        b == 'E' || b == 'T'
    } else if a == 'Z' {
        b == 'A' || b == 'M' || b == 'W'
    } else {
        false
    }
}

#[verifier::rlimit(30)]
fn country_pair_ok(a: char, b: char) -> (r: bool)
    ensures
        r == spec_is_valid_country_pair(a, b),
{
    if a == 'A' {
        b == 'D' || b == 'E' || b == 'F' || b == 'G' || b == 'I' || b == 'L' || b == 'M' || b == 'O' ||
        b == 'Q' || b == 'R' || b == 'S' || b == 'T' || b == 'U' || b == 'W' || b == 'X' || b == 'Z'
    } else if a == 'B' {
        b == 'A' || b == 'B' || b == 'D' || b == 'E' || b == 'F' || b == 'G' || b == 'H' || b == 'I' ||
        b == 'J' || b == 'L' || b == 'M' || b == 'N' || b == 'O' || b == 'Q' || b == 'R' || b == 'S' ||
        b == 'T' || b == 'V' || b == 'W' || b == 'Y' || b == 'Z'
    } else if a == 'C' {
        b == 'A' || b == 'C' || b == 'D' || b == 'F' || b == 'G' || b == 'H' || b == 'I' || b == 'K' ||
        b == 'L' || b == 'M' || b == 'N' || b == 'O' || b == 'R' || b == 'U' || b == 'V' || b == 'W' ||
        b == 'X' || b == 'Y' || b == 'Z'
    } else if a == 'D' {
        b == 'E' || b == 'J' || b == 'K' || b == 'M' || b == 'O' || b == 'Z'
    } else if a == 'E' {
        b == 'C' || b == 'E' || b == 'G' || b == 'H' || b == 'R' || b == 'S' || b == 'T'
    } else if a == 'F' {
        b == 'I' || b == 'J' || b == 'K' || b == 'M' || b == 'O' || b == 'R'
    } else if a == 'G' {
        b == 'A' || b == 'B' || b == 'D' || b == 'E' || b == 'F' || b == 'G' || b == 'H' || b == 'I' ||
        b == 'L' || b == 'M' || b == 'N' || b == 'P' || b == 'Q' || b == 'R' || b == 'S' || b == 'T' ||
        b == 'U' || b == 'W' || b == 'Y'
    } else if a == 'H' {
        b == 'K' || b == 'M' || b == 'N' || b == 'R' || b == 'T' || b == 'U'
    } else if a == 'I' {
        b == 'D' || b == 'E' || b == 'L' || b == 'M' || b == 'N' || b == 'O' || b == 'Q' || b == 'R' ||
        b == 'S' || b == 'T'
    } else if a == 'J' {
        b == 'E' || b == 'M' || b == 'O' || b == 'P'
    } else if a == 'K' {
        b == 'E' || b == 'G' || b == 'H' || b == 'I' || b == 'M' || b == 'N' || b == 'P' || b == 'R' ||
        b == 'W' || b == 'Y' || b == 'Z'
    } else if a == 'L' {
        b == 'A' || b == 'B' || b == 'C' || b == 'I' || b == 'K' || b == 'R' || b == 'S' || b == 'T' ||
        b == 'U' || b == 'V' || b == 'Y'
    } else if a == 'M' {
        b == 'A' || b == 'C' || b == 'D' || b == 'E' || b == 'F' || b == 'G' || b == 'H' || b == 'K' ||
        b == 'L' || b == 'M' || b == 'N' || b == 'O' || b == 'P' || b == 'Q' || b == 'R' || b == 'S' ||
        b == 'T' || b == 'U' || b == 'V' || b == 'W' || b == 'X' || b == 'Y' || b == 'Z'
    } else if a == 'N' {
        b == 'A' || b == 'C' || b == 'E' || b == 'F' || b == 'G' || b == 'I' || b == 'L' || b == 'O' ||
        b == 'P' || b == 'R' || b == 'U' || b == 'Z'
    } else if a == 'O' {
        b == 'M'
    } else if a == 'P' {
        b == 'A' || b == 'E' || b == 'F' || b == 'G' || b == 'H' || b == 'K' || b == 'L' || b == 'M' ||
        b == 'N' || b == 'R' || b == 'S' || b == 'T' || b == 'W' || b == 'Y'
    } else if a == 'Q' {
        b == 'A'
    } else if a == 'R' {
        b == 'E' || b == 'O' || b == 'S' || b == 'U' || b == 'W'
    } else if a == 'S' {
        b == 'A' || b == 'B' || b == 'C' || b == 'D' || b == 'E' || b == 'G' || b == 'H' || b == 'I' ||
        b == 'J' || b == 'K' || b == 'L' || b == 'M' || b == 'N' || b == 'O' || b == 'R' || b == 'S' ||
        b == 'T' || b == 'V' || b == 'X' || b == 'Y' || b == 'Z'
    } else if a == 'T' {
        b == 'C' || b == 'D' || b == 'F' || b == 'G' || b == 'H' || b == 'J' || b == 'K' || b == 'L' ||
        b == 'M' || b == 'N' || b == 'O' || b == 'R' || b == 'T' || b == 'V' || b == 'W' || b == 'Z'
    } else if a == 'U' {
        b == 'A' || b == 'G' || b == 'M' || b == 'S' || b == 'Y' || b == 'Z'
    } else if a == 'V' {
        b == 'A' || b == 'C' || b == 'E' || b == 'G' || b == 'I' || b == 'N' || b == 'U'
    } else if a == 'W' {
        b == 'F' || b == 'S'
    } else if a == 'Y' {
        b == 'E' || b == 'T'
    } else if a == 'Z' {
        b == 'A' || b == 'M' || b == 'W'
    } else {
        false
    }
}

/// A valid country code: exactly two characters forming an accepted pair.
pub open spec fn spec_valid_country_code(s: Seq<char>) -> bool {
    s.len() == 2 && spec_is_valid_country_pair(s[0], s[1])
}

/// Accepts exactly the two-letter codes of the accepted set; everything
/// else is rejected with the offending value.
pub fn validate_country_code(code: &str) -> (r: Result<(), ValidationError>)
    ensures
        r is Ok <==> spec_valid_country_code(code@),
        r matches Err(e) ==> e matches ValidationError::InvalidCountryCode(s) && s@ == code@,
{
    if code.unicode_len() != 2 {
        return Err(ValidationError::InvalidCountryCode(String::from_str(code)));
    }
    let a = code.get_char(0);
    let b = code.get_char(1);
    if country_pair_ok(a, b) {
        Ok(())
    } else {
        Err(ValidationError::InvalidCountryCode(String::from_str(code)))
    }
}

/// The geosite categories accepted in rules.
pub open spec fn spec_is_known_geosite(s: Seq<char>) -> bool {
    s == "google"@ || s == "facebook"@ || s == "twitter"@ || s == "amazon"@ || s == "apple"@ ||
        s == "microsoft"@ || s == "netflix"@ || s == "spotify"@ || s == "telegram"@ ||
        s == "youtube"@ || s == "tiktok"@ || s == "instagram"@ || s == "whatsapp"@ ||
        s == "reddit"@ || s == "github"@ || s == "stackoverflow"@ || s == "cn"@ || s == "ru"@ ||
        s == "ir"@ || s == "category-ads"@ || s == "category-ads-all"@ || s == "category-porn"@ ||
        s == "geolocation-cn"@ || s == "geolocation-!cn"@ || s == "tld-cn"@ || s == "tld-ru"@
}

pub open spec fn spec_geosite_char_ok(c: char) -> bool {
    ('a' <= c && c <= 'z') || ('0' <= c && c <= '9') || c == '-' || c == '.' || c == '!'
}

/// A valid geosite category: non-empty, drawn from the lowercase category
/// alphabet, and one of the known categories.
pub open spec fn spec_valid_geosite(s: Seq<char>) -> bool {
    s.len() > 0 && (forall|i: int| 0 <= i < s.len() ==> spec_geosite_char_ok(s[i]))
        && spec_is_known_geosite(s)
}

fn geosite_char_ok(c: char) -> (r: bool)
    ensures
        r == spec_geosite_char_ok(c),
{
    let v = c as u32;
    (97 <= v && v <= 122) || (48 <= v && v <= 57) || c == '-' || c == '.' || c == '!'
}

fn known_geosite(s: &str) -> (r: bool)
    ensures
        r == spec_is_known_geosite(s@),
{
    str_eq(s, "google") || str_eq(s, "facebook") || str_eq(s, "twitter") ||
        str_eq(s, "amazon") || str_eq(s, "apple") || str_eq(s, "microsoft") ||
        str_eq(s, "netflix") || str_eq(s, "spotify") || str_eq(s, "telegram") ||
        str_eq(s, "youtube") || str_eq(s, "tiktok") || str_eq(s, "instagram") ||
        str_eq(s, "whatsapp") || str_eq(s, "reddit") || str_eq(s, "github") ||
        str_eq(s, "stackoverflow") || str_eq(s, "cn") || str_eq(s, "ru") || str_eq(s, "ir") ||
        str_eq(s, "category-ads") || str_eq(s, "category-ads-all") ||
        str_eq(s, "category-porn") || str_eq(s, "geolocation-cn") ||
        str_eq(s, "geolocation-!cn") || str_eq(s, "tld-cn") || str_eq(s, "tld-ru")
}

/// Accepts exactly the known geosite categories; everything else is
/// rejected with the offending value.
pub fn validate_geosite_category(category: &str) -> (r: Result<(), ValidationError>)
    ensures
        r is Ok <==> spec_valid_geosite(category@),
        r matches Err(e) ==> e matches ValidationError::InvalidGeoSiteCategory(s) && s@
            == category@,
{
    let n = category.unicode_len();
    if n == 0 {
        return Err(ValidationError::InvalidGeoSiteCategory(String::from_str(category)));
    }
    let mut i: usize = 0;
    while i < n
        invariant
            0 <= i <= n,
            n == category@.len(),
            forall|j: int| 0 <= j < i ==> spec_geosite_char_ok(category@[j]),
        decreases n - i,
    {
        if !geosite_char_ok(category.get_char(i)) {
            return Err(ValidationError::InvalidGeoSiteCategory(String::from_str(category)));
        }
        i += 1;
    }
    if known_geosite(category) {
        Ok(())
    } else {
        Err(ValidationError::InvalidGeoSiteCategory(String::from_str(category)))
    }
}

/// The name a kind-of-character has in domain patterns; what Unicode calls
/// alphanumeric is decided by its tables, not stated here.
pub uninterp spec fn char_is_alphanumeric(c: char) -> bool;

/// Relies on char::is_alphanumeric: the Unicode letter and digit classes.
#[verifier::external_body]
fn is_alphanumeric_char(c: char) -> (r: bool)
    ensures
        r == char_is_alphanumeric(c),
{
    c.is_alphanumeric()
}

pub open spec fn spec_domain_char_ok(c: char) -> bool {
    char_is_alphanumeric(c) || c == '.' || c == '-'
}

/// How many times `c` occurs in `s`.
pub open spec fn spec_count_char(s: Seq<char>, c: char) -> nat
    decreases s.len(),
{
    if s.len() == 0 {
        0
    } else {
        spec_count_char(s.drop_last(), c) + if s.last() == c {
            1nat
        } else {
            0nat
        }
    }
}

pub open spec fn spec_has_wildcard_prefix(p: Seq<char>) -> bool {
    p.len() >= 2 && p[0] == '*' && p[1] == '.'
}

/// The part of a pattern that the character check applies to: everything
/// after an optional `*.` prefix.
pub open spec fn spec_domain_core(p: Seq<char>) -> Seq<char> {
    if spec_has_wildcard_prefix(p) {
        p.subrange(2, p.len() as int)
    } else {
        p
    }
}

/// A valid domain pattern: non-empty, not starting with a dot, containing a
/// dot, with every character after an optional `*.` prefix drawn from the
/// domain alphabet, and at most one `*` when the wildcard prefix is used.
pub open spec fn spec_valid_domain(p: Seq<char>) -> bool {
    &&& p.len() > 0
    &&& p[0] != '.'
    &&& exists|i: int| 0 <= i < p.len() && #[trigger] p[i] == '.'
    &&& forall|i: int|
        0 <= i < spec_domain_core(p).len() ==> spec_domain_char_ok(
            #[trigger] spec_domain_core(p)[i],
        )
    &&& spec_has_wildcard_prefix(p) ==> spec_count_char(p, '*') <= 1
}

fn count_char(s: &str, c: char) -> (r: usize)
    ensures
        r == spec_count_char(s@, c),
{
    let n = s.unicode_len();
    let mut i: usize = 0;
    let mut count: usize = 0;
    while i < n
        invariant
            0 <= i <= n,
            n == s@.len(),
            count <= i,
            count == spec_count_char(s@.subrange(0, i as int), c),
        decreases n - i,
    {
        proof {
            let pre = s@.subrange(0, i + 1);
            assert(pre.drop_last() =~= s@.subrange(0, i as int));
            assert(pre.last() == s@[i as int]);
        }
        if s.get_char(i) == c {
            count += 1;
        }
        i += 1;
    }
    proof {
        assert(s@.subrange(0, n as int) =~= s@);
    }
    count
}

/// Accepts exactly the valid domain patterns; everything else is rejected
/// with the offending value.
pub fn validate_domain_pattern(pattern: &str) -> (r: Result<(), ValidationError>)
    ensures
        r is Ok <==> spec_valid_domain(pattern@),
        r matches Err(e) ==> e matches ValidationError::InvalidDomainPattern(s) && s@
            == pattern@,
{
    let n = pattern.unicode_len();
    if n == 0 {
        return Err(ValidationError::InvalidDomainPattern(String::from_str(pattern)));
    }
    if pattern.get_char(0) == '.' {
        return Err(ValidationError::InvalidDomainPattern(String::from_str(pattern)));
    }
    let mut has_dot = false;
    let mut i: usize = 0;
    while i < n
        invariant
            0 <= i <= n,
            n == pattern@.len(),
            has_dot == exists|j: int| 0 <= j < i && pattern@[j] == '.',
        decreases n - i,
    {
        if pattern.get_char(i) == '.' {
            has_dot = true;
        }
        i += 1;
    }
    if !has_dot {
        return Err(ValidationError::InvalidDomainPattern(String::from_str(pattern)));
    }
    let has_wild = n >= 2 && pattern.get_char(0) == '*' && pattern.get_char(1) == '.';
    let start: usize = if has_wild {
        2
    } else {
        0
    };
    let mut k: usize = start;
    while k < n
        invariant
            start <= k <= n,
            n == pattern@.len(),
            has_wild == spec_has_wildcard_prefix(pattern@),
            has_wild ==> start == 2,
            !has_wild ==> start == 0,
            forall|j: int| start <= j < k ==> spec_domain_char_ok(pattern@[j]),
        decreases n - k,
    {
        let c = pattern.get_char(k);
        if !(is_alphanumeric_char(c) || c == '.' || c == '-') {
            proof {
                let kk = k as int;
                if has_wild {
                    assert(spec_domain_core(pattern@)[kk - 2] == pattern@[kk]);
                    assert(!spec_domain_char_ok(spec_domain_core(pattern@)[kk - 2]));
                } else {
                    assert(spec_domain_core(pattern@)[kk] == pattern@[kk]);
                    assert(!spec_domain_char_ok(spec_domain_core(pattern@)[kk]));
                }
            }
            return Err(ValidationError::InvalidDomainPattern(String::from_str(pattern)));
        }
        k += 1;
    }
    if has_wild && count_char(pattern, '*') > 1 {
        return Err(ValidationError::InvalidDomainPattern(String::from_str(pattern)));
    }
    proof {
        assert forall|i: int| 0 <= i < spec_domain_core(pattern@).len() implies spec_domain_char_ok(
            #[trigger] spec_domain_core(pattern@)[i],
        ) by {
            if has_wild {
                assert(spec_domain_core(pattern@)[i] == pattern@[i + 2]);
            } else {
                assert(spec_domain_core(pattern@)[i] == pattern@[i]);
            }
        }
    }
    Ok(())
}

} // verus!
