//! Addresses as the `url` crate parses them, and the character-level checks
//! that decide whether an address belongs to the chat service.
use vstd::prelude::*;
use vstd::string::*;

verus! {

/// What `url::Url::parse` makes of an address, when it accepts it: the
/// serialization of the parsed URL, its host (if it has one) and its path.
pub uninterp spec fn parsed_url(s: Seq<char>) -> Option<(Seq<char>, Option<Seq<char>>, Seq<char>)>;

/// The parts of a parsed URL that the webhook rules read.
pub struct UrlParts {
    pub serialization: String,
    pub host: Option<String>,
    pub path: String,
}

/// The view of an optional string.
pub open spec fn opt_view(s: Option<String>) -> Option<Seq<char>> {
    match s {
        Some(v) => Some(v@),
        None => None,
    }
}

impl View for UrlParts {
    type V = (Seq<char>, Option<Seq<char>>, Seq<char>);

    open spec fn view(&self) -> Self::V {
        (self.serialization@, opt_view(self.host), self.path@)
    }
}

#[verifier::external_type_specification]
#[verifier::external_body]
pub struct ExParseError(url::ParseError);

/// Relies on `url::Url::parse`, read back through the parsed URL's accessors
/// `as_str`, `host_str` and `path`: an error exactly when the crate refuses
/// the address.
#[verifier::external_body]
pub(crate) fn parse_url(s: &str) -> (r: Result<UrlParts, url::ParseError>)
    ensures
        match r {
            Ok(p) => parsed_url(s@) == Some(p@),
            Err(_) => parsed_url(s@) is None,
        },
{
    match url::Url::parse(s) {
        Ok(u) => Ok(
            UrlParts {
                serialization: u.as_str().to_string(),
                host: u.host_str().map(|h| h.to_string()),
                path: u.path().to_string(),
            },
        ),
        Err(e) => Err(e),
    }
}

/// A character with ASCII upper case letters mapped to lower case, as a code point.
pub open spec fn fold_ascii(c: char) -> u32 {
    if 65 <= (c as u32) && (c as u32) <= 90 {
        (c as u32 + 32) as u32
    } else {
        c as u32
    }
}

/// Two strings that differ at most in the case of ASCII letters.
pub open spec fn eq_ascii_case_insensitive(a: Seq<char>, b: Seq<char>) -> bool {
    &&& a.len() == b.len()
    &&& forall|i: int| 0 <= i < a.len() ==> fold_ascii(#[trigger] a[i]) == fold_ascii(b[i])
}

/// `p` is a prefix of `s`.
pub open spec fn has_prefix(s: Seq<char>, p: Seq<char>) -> bool {
    p.len() <= s.len() && s.subrange(0, p.len() as int) == p
}

/// A character that opens the query or the fragment of a serialized URL.
pub open spec fn is_query_or_fragment_mark(c: char) -> bool {
    c == '?' || c == '#'
}

/// The position of the first query or fragment mark at or after `i`, or the length.
pub open spec fn first_mark_from(s: Seq<char>, i: int) -> int
    decreases s.len() - i,
{
    if i < 0 || i >= s.len() {
        s.len() as int
    } else if is_query_or_fragment_mark(s[i]) {
        i
    } else {
        first_mark_from(s, i + 1)
    }
}

/// A serialized URL without its query and fragment.
pub open spec fn strip_query_fragment(s: Seq<char>) -> Seq<char> {
    s.subrange(0, first_mark_from(s, 0))
}

/// Where the scan for a query or fragment mark from `i` stops: no mark
/// before that place, and a mark or the end at it.
proof fn lemma_first_mark_from(s: Seq<char>, i: int)
    requires
        0 <= i <= s.len(),
    ensures
        i <= first_mark_from(s, i) <= s.len(),
        forall|j: int| i <= j < first_mark_from(s, i) ==> !is_query_or_fragment_mark(#[trigger] s[j]),
        first_mark_from(s, i) == s.len() || is_query_or_fragment_mark(s[first_mark_from(s, i)]),
    decreases s.len() - i,
{
    if i < s.len() && !is_query_or_fragment_mark(s[i]) {
        lemma_first_mark_from(s, i + 1);
    }
}

/// Removing the query and fragment of an address that has none leaves it as
/// it is: the address of a confirmed webhook, checked again, is sent to the
/// service unchanged.
pub proof fn lemma_strip_query_fragment_idempotent(s: Seq<char>)
    ensures
        strip_query_fragment(strip_query_fragment(s)) == strip_query_fragment(s),
{
    let t = strip_query_fragment(s);
    lemma_first_mark_from(s, 0);
    lemma_first_mark_from(t, 0);
    let k = first_mark_from(t, 0);
    if k < t.len() {
        assert(t[k] == s[k]);
    }
    assert(t.subrange(0, k) =~= t);
}

fn fold_ascii_exec(c: char) -> (r: u32)
    ensures
        r == fold_ascii(c),
{
    let v = c as u32;
    if 65 <= v && v <= 90 {
        v + 32
    } else {
        v
    }
}

/// Compares two strings, ignoring the case of ASCII letters.
pub fn eq_ignore_ascii_case(a: &str, b: &str) -> (r: bool)
    ensures
        r == eq_ascii_case_insensitive(a@, b@),
{
    let n = a.unicode_len();
    let m = b.unicode_len();
    if n != m {
        return false;
    }
    let mut i: usize = 0;
    while i < n
        invariant
            n == a@.len(),
            m == b@.len(),
            n == m,
            i <= n,
            forall|j: int| 0 <= j < i ==> fold_ascii(#[trigger] a@[j]) == fold_ascii(b@[j]),
        decreases n - i,
    {
        let x = a.get_char(i);
        let y = b.get_char(i);
        if fold_ascii_exec(x) != fold_ascii_exec(y) {
            return false;
        }
        i += 1;
    }
    true
}

/// Whether `s` begins with `p`.
pub fn starts_with(s: &str, p: &str) -> (r: bool)
    ensures
        r == has_prefix(s@, p@),
{
    let n = s.unicode_len();
    let m = p.unicode_len();
    if m > n {
        return false;
    }
    let mut i: usize = 0;
    while i < m
        invariant
            n == s@.len(),
            m == p@.len(),
            m <= n,
            i <= m,
            s@.subrange(0, i as int) == p@.subrange(0, i as int),
        decreases m - i,
    {
        if s.get_char(i) != p.get_char(i) {
            assert(s@.subrange(0, m as int)[i as int] != p@[i as int]);
            return false;
        }
        assert(s@.subrange(0, i + 1) =~= s@.subrange(0, i as int).push(s@[i as int]));
        assert(p@.subrange(0, i + 1) =~= p@.subrange(0, i as int).push(p@[i as int]));
        i += 1;
    }
    assert(p@.subrange(0, m as int) =~= p@);
    true
}

/// The serialized URL `s` cut at its first query or fragment mark.
pub fn without_query_fragment(s: &str) -> (r: String)
    ensures
        r@ == strip_query_fragment(s@),
{
    let n = s.unicode_len();
    let mut i: usize = 0;
    while i < n && !(s.get_char(i) == '?' || s.get_char(i) == '#')
        invariant
            n == s@.len(),
            i <= n,
            first_mark_from(s@, 0) == first_mark_from(s@, i as int),
        decreases n - i,
    {
        i += 1;
    }
    String::from_str(s.substring_char(0, i))
}

} // verus!
