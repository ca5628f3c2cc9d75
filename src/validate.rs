//! Well-formedness of the two query strings, checked before any store or
//! network access.
use vstd::prelude::*;

verus! {

/// ASCII letters `a`-`z` and `A`-`Z`.
pub open spec fn is_ascii_letter(c: char) -> bool {
    ('a' <= c && c <= 'z') || ('A' <= c && c <= 'Z')
}

pub open spec fn is_ascii_upper(c: char) -> bool {
    'A' <= c && c <= 'Z'
}

pub open spec fn is_ascii_digit(c: char) -> bool {
    '0' <= c && c <= '9'
}

/// The ASCII punctuation characters (`!` to `/`, `:` to `@`, `[` to `` ` ``,
/// `{` to `~`).
pub open spec fn is_ascii_punctuation(c: char) -> bool {
    ('!' <= c && c <= '/') || (':' <= c && c <= '@') || ('[' <= c && c <= '`') || ('{' <= c
        && c <= '~')
}

/// The punctuation a city name may hold: comma, period, apostrophe, hyphen.
pub open spec fn is_city_punctuation(c: char) -> bool {
    c == ',' || c == '.' || c == '\'' || c == '-'
}

/// The ASCII members of Unicode's `White_Space` property: tab, line feed,
/// vertical tab, form feed, carriage return and space.
pub open spec fn is_ascii_white_space(c: char) -> bool {
    c == ' ' || c == '\t' || c == '\n' || c == '\x0B' || c == '\x0C' || c == '\r'
}

/// Whether a character beyond ASCII has Unicode's `White_Space` property.
pub uninterp spec fn non_ascii_white_space(c: char) -> bool;

/// Whether a character beyond ASCII is a Unicode letter (`\p{L}`) or has the
/// `White_Space` property (`\s`), as the regex engine's tables say.
pub uninterp spec fn non_ascii_letter_or_space(c: char) -> bool;

/// Unicode white space, the set that `str::trim` strips.
pub open spec fn is_white_space(c: char) -> bool {
    if (c as u32) < 128 {
        is_ascii_white_space(c)
    } else {
        non_ascii_white_space(c)
    }
}

/// A character allowed in a city name: a letter of any script, white space,
/// or one of `,.'-`.
pub open spec fn is_city_char(c: char) -> bool {
    if (c as u32) < 128 {
        is_ascii_letter(c) || is_ascii_white_space(c) || is_city_punctuation(c)
    } else {
        non_ascii_letter_or_space(c)
    }
}

/// `s` with leading and trailing white space removed.
pub open spec fn trim_view(s: Seq<char>) -> Seq<char>
    decreases s.len(),
{
    if s.len() > 0 && is_white_space(s[0]) {
        trim_view(s.drop_first())
    } else if s.len() > 0 && is_white_space(s.last()) {
        trim_view(s.drop_last())
    } else {
        s
    }
}

/// A non-empty run of city characters and nothing else.
pub open spec fn is_city_text(s: Seq<char>) -> bool {
    s.len() > 0 && forall|i: int| 0 <= i < s.len() ==> #[trigger] is_city_char(s[i])
}

/// Exactly two uppercase ASCII letters.
pub open spec fn is_country_code(s: Seq<char>) -> bool {
    s.len() == 2 && is_ascii_upper(s[0]) && is_ascii_upper(s[1])
}

/// A valid city: once trimmed, at least two characters, all of them city
/// characters.
pub open spec fn city_is_valid(s: Seq<char>) -> bool {
    trim_view(s).len() >= 2 && is_city_text(trim_view(s))
}

pub open spec fn city_pattern() -> Seq<char> {
    "^[\\p{L}\\s,.'-]+$"@
}

pub open spec fn country_code_pattern() -> Seq<char> {
    "^[A-Z]{2}$"@
}

/// Relies on `str::trim`: strips leading and trailing characters with the
/// Unicode `White_Space` property, keeps the rest as it stands.
#[verifier::external_body]
fn trim_str<'a>(s: &'a str) -> (r: &'a str)
    ensures
        r@ == trim_view(s@),
        r@.len() > 0 && (r@[0] as u32) >= 128 ==> !non_ascii_white_space(r@[0]),
{
    s.trim()
}

/// Relies on `regex::Regex::new` and `regex::Regex::is_match`: the pattern is
/// compiled and tested against the whole haystack. For the two patterns this
/// module uses, the anchors `^`/`$` span the whole text, `\p{L}` is the
/// Unicode letter class and `\s` is `White_Space`; both compile.
#[verifier::external_body]
fn regex_is_match(pattern: &str, haystack: &str) -> (r: Option<bool>)
    ensures
        pattern@ == city_pattern() ==> r == Some(is_city_text(haystack@)),
        pattern@ == country_code_pattern() ==> r == Some(is_country_code(haystack@)),
        pattern@ == city_pattern() && haystack@.len() == 1 && (haystack@[0] as u32) >= 128 ==> r
            == Some(non_ascii_letter_or_space(haystack@[0])),
{
    match regex::Regex::new(pattern) {
        Ok(re) => Some(re.is_match(haystack)),
        Err(_) => None,
    }
}

/// Whether `city` names a city: after trimming surrounding white space it has
/// at least two characters, each a letter of any script, white space, or one
/// of `,.'-`.
pub fn validate_city(city: &str) -> (r: bool)
    ensures
        r == city_is_valid(city@),
{
    let trimmed = trim_str(city);
    if trimmed.unicode_len() < 2 {
        return false;
    }
    match regex_is_match("^[\\p{L}\\s,.'-]+$", trimmed) {
        Some(m) => m,
        None => false,
    }
}

/// Whether `code` is exactly two uppercase ASCII letters.
pub fn validate_country_code(code: &str) -> (r: bool)
    ensures
        r == is_country_code(code@),
{
    match regex_is_match("^[A-Z]{2}$", code) {
        Some(m) => m,
        None => false,
    }
}

proof fn lemma_trim_keeps(s: Seq<char>, k: int)
    requires
        0 <= k < s.len(),
        !is_white_space(s[k]),
    ensures
        trim_view(s).contains(s[k]),
    decreases s.len(),
{
    if s.len() > 0 && is_white_space(s[0]) {
        assert(s.drop_first()[k - 1] == s[k]);
        lemma_trim_keeps(s.drop_first(), k - 1);
    } else if s.len() > 0 && is_white_space(s.last()) {
        assert(s.drop_last()[k] == s[k]);
        lemma_trim_keeps(s.drop_last(), k);
    } else {
        assert(trim_view(s)[k] == s[k]);
    }
}

proof fn lemma_trim_within(s: Seq<char>, i: int)
    requires
        0 <= i < trim_view(s).len(),
    ensures
        s.contains(trim_view(s)[i]),
    decreases s.len(),
{
    if s.len() > 0 && is_white_space(s[0]) {
        lemma_trim_within(s.drop_first(), i);
        let k = choose|k: int| 0 <= k < s.drop_first().len() && s.drop_first()[k] == trim_view(s)[i];
        assert(s[k + 1] == trim_view(s)[i]);
    } else if s.len() > 0 && is_white_space(s.last()) {
        lemma_trim_within(s.drop_last(), i);
        let k = choose|k: int| 0 <= k < s.drop_last().len() && s.drop_last()[k] == trim_view(s)[i];
        assert(s[k] == trim_view(s)[i]);
    } else {
        assert(s[i] == trim_view(s)[i]);
    }
}

/// A city that holds an ASCII digit, or ASCII punctuation other than
/// `,.'-`, anywhere is not valid.
pub proof fn city_with_digit_or_punctuation_is_invalid(s: Seq<char>, k: int)
    requires
        0 <= k < s.len(),
        is_ascii_digit(s[k]) || (is_ascii_punctuation(s[k]) && !is_city_punctuation(s[k])),
    ensures
        !city_is_valid(s),
{
    lemma_trim_keeps(s, k);
    let t = trim_view(s);
    let j = choose|j: int| 0 <= j < t.len() && t[j] == s[k];
    assert(!is_city_char(t[j]));
}

/// A city made only of letters, white space and `,.'-` is valid once it
/// keeps at least two characters after trimming.
pub proof fn city_of_allowed_chars_is_valid(s: Seq<char>)
    requires
        forall|i: int| 0 <= i < s.len() ==> #[trigger] is_city_char(s[i]),
        trim_view(s).len() >= 2,
    ensures
        city_is_valid(s),
{
    let t = trim_view(s);
    assert forall|i: int| 0 <= i < t.len() implies #[trigger] is_city_char(t[i]) by {
        lemma_trim_within(s, i);
        let k = choose|k: int| 0 <= k < s.len() && s[k] == t[i];
        assert(is_city_char(s[k]));
    }
}

} // verus!
