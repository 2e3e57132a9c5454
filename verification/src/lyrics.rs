//! Lyric files found beside the music: which files count as lyrics, and
//! under what name each is listed.

use vstd::prelude::*;
use vstd::string::*;
use crate::search::{first_set, lemma_first_set, lemma_first_set_step};
use crate::source::{lowercased, to_lowercase};
use crate::text::{opt_view, str_eq};

verus! {

/// How much of a lyric file is read to find its identifier.
pub const HEAD_BYTES: usize = 8192;

/// A lyric file: the name it is listed under, and where it lies.
#[derive(Clone, Debug)]
pub struct LyricFile {
    /// Name under which the file is listed.
    pub name: String,
    /// Path of the file.
    pub path: String,
}

/// A kind of lyric file.
#[derive(Clone, Copy, Debug, PartialEq, Eq, Structural)]
pub enum LyricKind {
    /// Lines with time stamps.
    Lrc,
    /// Timed text markup.
    Ttml,
}

/// What a [`LyricFile`] holds.
pub struct LyricModel {
    /// Name under which the file is listed.
    pub name: Seq<char>,
    /// Path of the file.
    pub path: Seq<char>,
}

impl View for LyricFile {
    type V = LyricModel;

    open spec fn view(&self) -> LyricModel {
        LyricModel { name: self.name@, path: self.path@ }
    }
}

/// The kind of lyric file that an extension in lower case stands for.
pub open spec fn kind_of(lower: Seq<char>) -> Option<LyricKind> {
    if lower == "lrc"@ {
        Some(LyricKind::Lrc)
    } else if lower == "ttml"@ {
        Some(LyricKind::Ttml)
    } else {
        None
    }
}

/// Whether `needle` stands in `text` at index `i`.
pub open spec fn stands_at(text: Seq<char>, needle: Seq<char>, i: int) -> bool {
    0 <= i && i + needle.len() <= text.len() && text.subrange(i, i + needle.len()) == needle
}

/// For each index of `text`, whether `needle` stands there.
pub open spec fn stand_marks(text: Seq<char>, needle: Seq<char>) -> Seq<bool> {
    Seq::new(text.len() + 1, |i: int| stands_at(text, needle, i))
}

/// The first index at or after `from` at which `needle` stands in `text`.
pub open spec fn found_from(text: Seq<char>, needle: Seq<char>, from: int) -> Option<int> {
    first_set(stand_marks(text, needle), from, text.len() as int + 1)
}

/// The identifier that the head of a lyric file names: what stands between
/// the quotation marks of the first `value="..."` after the first
/// `ncmMusicId`.
pub open spec fn id_of(head: Seq<char>) -> Option<Seq<char>> {
    match found_from(head, "ncmMusicId"@, 0) {
        None => None,
        Some(key) => match found_from(head, "value=\""@, key) {
            None => None,
            Some(attr) => {
                let start = attr + 7;
                match found_from(head, "\""@, start) {
                    None => None,
                    Some(end) => Some(head.subrange(start, end)),
                }
            },
        },
    }
}

/// The name under which a lyric file is listed: its file name, or for a
/// file of timed text markup whose head names an identifier, that identifier
/// with the extension `.ttml`.
pub open spec fn listed_name(kind: LyricKind, file_name: Seq<char>, head: Option<Seq<char>>) -> Seq<
    char,
> {
    match kind {
        LyricKind::Lrc => file_name,
        LyricKind::Ttml => match head {
            Some(h) => match id_of(h) {
                Some(id) => id + ".ttml"@,
                None => file_name,
            },
            None => file_name,
        },
    }
}

/// The kind of lyric file that an extension stands for, whatever its case:
/// `lrc` or `ttml`. `None` for any other extension.
pub fn lyric_kind(extension: &str) -> (kind: Option<LyricKind>)
    ensures
        kind == kind_of(lowercased(extension@)),
{
    let lower: String = to_lowercase(extension);
    kind_of_lower(lower.as_str())
}

/// The kind of lyric file that an extension in lower case stands for.
pub fn kind_of_lower(lower: &str) -> (kind: Option<LyricKind>)
    ensures
        kind == kind_of(lower@),
{
    if str_eq(lower, "lrc") {
        Some(LyricKind::Lrc)
    } else if str_eq(lower, "ttml") {
        Some(LyricKind::Ttml)
    } else {
        None
    }
}

/// The characters of a string.
pub fn chars_of(s: &str) -> (v: Vec<char>)
    ensures
        v@ == s@,
{
    let n: usize = s.unicode_len();
    let mut v: Vec<char> = Vec::new();
    let mut i: usize = 0;
    while i < n
        invariant
            i <= n,
            n == s@.len(),
            v@ == s@.take(i as int),
        decreases n - i,
    {
        v.push(s.get_char(i));
        i += 1;
    }
    v
}

/// Whether `needle` stands in `text` at index `i`.
pub fn occurs_at(text: &[char], needle: &[char], i: usize) -> (r: bool)
    ensures
        r == stands_at(text@, needle@, i as int),
{
    let m: usize = needle.len();
    if i > text.len() || m > text.len() - i {
        return false;
    }
    let mut k: usize = 0;
    while k < m
        invariant
            k <= m,
            m == needle@.len(),
            i + m <= text.len(),
            forall|j: int| 0 <= j < k ==> text@[i + j] == needle@[j],
        decreases m - k,
    {
        if text[i + k] != needle[k] {
            return false;
        }
        k += 1;
    }
    assert(text@.subrange(i as int, i + m) =~= needle@);
    true
}

/// The first index at or after `from` at which `needle` stands in `text`.
pub fn find_from(text: &[char], needle: &[char], from: usize) -> (r: Option<usize>)
    ensures
        match r {
            Some(i) => from <= i <= text.len() && found_from(text@, needle@, from as int) == Some(
                i as int,
            ),
            None => found_from(text@, needle@, from as int) is None,
        },
{
    let n: usize = text.len();
    let ghost marks = stand_marks(text@, needle@);
    let mut i: usize = from;
    while i <= n
        invariant
            from <= i,
            n == text@.len(),
            marks == stand_marks(text@, needle@),
            first_set(marks, from as int, n + 1) == first_set(marks, i as int, n + 1),
        decreases n + 1 - i,
    {
        if occurs_at(text, needle, i) {
            return Some(i);
        }
        proof {
            lemma_first_set_step(marks, i as int, n + 1);
        }
        if i == n {
            return None;
        }
        i += 1;
    }
    None
}

/// The identifier that the head of a lyric file names, if it names one.
pub fn extract_id(head: &str) -> (id: Option<String>)
    ensures
        match id {
            Some(s) => id_of(head@) == Some(s@),
            None => id_of(head@) is None,
        },
{
    let text: Vec<char> = chars_of(head);
    let key_name: Vec<char> = chars_of("ncmMusicId");
    let attr_name: Vec<char> = chars_of("value=\"");
    let quote: Vec<char> = chars_of("\"");
    proof {
        reveal_strlit("value=\"");
    }
    let key: usize = match find_from(text.as_slice(), key_name.as_slice(), 0) {
        Some(i) => i,
        None => {
            return None;
        },
    };
    let attr: usize = match find_from(text.as_slice(), attr_name.as_slice(), key) {
        Some(i) => i,
        None => {
            return None;
        },
    };
    proof {
        lemma_first_set(
            stand_marks(text@, attr_name@),
            key as int,
            text@.len() as int + 1,
        );
    }
    let start: usize = attr + 7;
    let end: usize = match find_from(text.as_slice(), quote.as_slice(), start) {
        Some(i) => i,
        None => {
            return None;
        },
    };
    Some(String::from_str(head.substring_char(start, end)))
}

/// The entry under which a file is listed among the lyrics, if it is a lyric
/// file by its extension. `head` is the head of the file, read where the
/// file is of timed text markup.
pub fn list_lyric_file(extension: &str, file_name: String, path: String, head: Option<&str>) -> (r:
    Option<LyricFile>)
    ensures
        match kind_of(lowercased(extension@)) {
            Some(kind) => r is Some && r->0@ == (LyricModel {
                name: listed_name(kind, file_name@, opt_view(head)),
                path: path@,
            }),
            None => r is None,
        },
{
    let kind: LyricKind = match lyric_kind(extension) {
        Some(k) => k,
        None => {
            return None;
        },
    };
    let named: Option<String> = match (kind, head) {
        (LyricKind::Ttml, Some(h)) => extract_id(h),
        _ => None,
    };
    let name: String = match named {
        Some(id) => id.concat(".ttml"),
        None => file_name,
    };
    Some(LyricFile { name, path })
}

} // verus!
