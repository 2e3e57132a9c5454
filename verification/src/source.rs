//! Where a track comes from: what its address says about how to fetch it and
//! what format to expect.

use vstd::prelude::*;
use vstd::string::*;
use crate::search::{first_set, last_set, lemma_first_set_step, lemma_last_set_step};
use crate::text::str_eq;

verus! {

/// How a track is fetched.
#[derive(Clone, Copy, Debug, PartialEq, Eq, Structural)]
pub enum SourceKind {
    /// Over HTTP or HTTPS, read while it is still being fetched.
    Http,
    /// From a local file, read whole.
    LocalFile,
}

/// Whether `s` starts with `prefix`.
pub open spec fn has_prefix(s: Seq<char>, prefix: Seq<char>) -> bool {
    prefix.len() <= s.len() && s.take(prefix.len() as int) == prefix
}

/// Whether an address is fetched over HTTP or HTTPS.
pub open spec fn is_http(url: Seq<char>) -> bool {
    has_prefix(url, "http://"@) || has_prefix(url, "https://"@)
}

/// For each character of `s`, whether it is `c`.
pub open spec fn char_marks(s: Seq<char>, c: char) -> Seq<bool> {
    Seq::new(s.len(), |i: int| s[i] == c)
}

/// What follows the last `c` in `s`; all of `s` if there is none.
pub open spec fn after_last(s: Seq<char>, c: char) -> Seq<char> {
    match last_set(char_marks(s, c), 0, s.len() as int) {
        Some(i) => s.skip(i + 1),
        None => s,
    }
}

/// What precedes the first `c` in `s`; all of `s` if there is none.
pub open spec fn before_first(s: Seq<char>, c: char) -> Seq<char> {
    match first_set(char_marks(s, c), 0, s.len() as int) {
        Some(i) => s.take(i),
        None => s,
    }
}

/// The characters of `s` in lower case, as the standard library's
/// `str::to_lowercase` gives them.
pub uninterp spec fn lowercased(s: Seq<char>) -> Seq<char>;

/// The format hint of an address: what follows its last dot, in lower case,
/// up to the first question mark.
pub open spec fn hint_of(url: Seq<char>) -> Seq<char> {
    before_first(lowercased(after_last(url, '.')), '?')
}

/// `str::to_lowercase` of the standard library: the string in lower case.
/// What that is for given characters takes the Unicode tables to say; the
/// contract only gives the result its name.
#[verifier::external_body]
pub(crate) fn to_lowercase(s: &str) -> (r: String)
    ensures
        r@ == lowercased(s@),
{
    s.to_lowercase()
}

/// Whether `s` starts with `prefix`.
pub fn starts_with(s: &str, prefix: &str) -> (r: bool)
    ensures
        r == has_prefix(s@, prefix@),
{
    let n: usize = prefix.unicode_len();
    if s.unicode_len() < n {
        return false;
    }
    let mut i: usize = 0;
    while i < n
        invariant
            i <= n,
            n == prefix@.len(),
            n <= s@.len(),
            forall|j: int| 0 <= j < i ==> s@[j] == prefix@[j],
        decreases n - i,
    {
        if s.get_char(i) != prefix.get_char(i) {
            return false;
        }
        i += 1;
    }
    assert(s@.take(n as int) =~= prefix@);
    true
}

/// Whether an address is fetched over HTTP or HTTPS: it is if it starts
/// with `http://` or `https://`.
pub fn is_http_url(url: &str) -> (r: bool)
    ensures
        r == is_http(url@),
{
    starts_with(url, "http://") || starts_with(url, "https://")
}

/// How the track at an address is fetched: over HTTP where the address says
/// so, and from a local file otherwise.
pub fn source_kind(url: &str) -> (kind: SourceKind)
    ensures
        kind == if is_http(url@) {
            SourceKind::Http
        } else {
            SourceKind::LocalFile
        },
{
    if is_http_url(url) {
        SourceKind::Http
    } else {
        SourceKind::LocalFile
    }
}

/// What follows the last `c` in `s`; all of `s` if there is none.
pub fn text_after_last<'a>(s: &'a str, c: char) -> (r: &'a str)
    ensures
        r@ == after_last(s@, c),
{
    let n: usize = s.unicode_len();
    let ghost marks = char_marks(s@, c);
    let mut j: usize = n;
    while j > 0
        invariant
            j <= n,
            n == s@.len(),
            marks == char_marks(s@, c),
            last_set(marks, 0, n as int) == last_set(marks, 0, j as int),
        decreases j,
    {
        if s.get_char(j - 1) == c {
            return s.substring_char(j, n);
        }
        proof {
            lemma_last_set_step(marks, 0, j as int);
        }
        j -= 1;
    }
    s
}

/// What precedes the first `c` in `s`; all of `s` if there is none.
pub fn text_before_first<'a>(s: &'a str, c: char) -> (r: &'a str)
    ensures
        r@ == before_first(s@, c),
{
    let n: usize = s.unicode_len();
    let ghost marks = char_marks(s@, c);
    let mut i: usize = 0;
    while i < n
        invariant
            i <= n,
            n == s@.len(),
            marks == char_marks(s@, c),
            first_set(marks, 0, n as int) == first_set(marks, i as int, n as int),
        decreases n - i,
    {
        if s.get_char(i) == c {
            return s.substring_char(0, i);
        }
        proof {
            lemma_first_set_step(marks, i as int, n as int);
        }
        i += 1;
    }
    s
}

/// The format hint that is left of an extension in lower case once a query
/// is cut off: what precedes its first question mark.
pub fn cut_query(extension: &str) -> (r: String)
    ensures
        r@ == before_first(extension@, '?'),
{
    String::from_str(text_before_first(extension, '?'))
}

/// The format hint of an address: what follows its last dot, in lower case,
/// up to the first question mark.
pub fn hint_extension(url: &str) -> (r: String)
    ensures
        r@ == hint_of(url@),
{
    let lower: String = to_lowercase(text_after_last(url, '.'));
    cut_query(lower.as_str())
}

/// Whether the track that was got ready is the one that is asked for: there
/// is one, and its address is the same.
pub fn takes_preloaded(ready: Option<&str>, url: &str) -> (r: bool)
    ensures
        r == (ready is Some && ready->0@ == url@),
{
    match ready {
        Some(held) => str_eq(held, url),
        None => false,
    }
}

} // verus!
