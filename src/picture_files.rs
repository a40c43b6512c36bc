//! File names and MIME types of downloaded pictures.

use vstd::prelude::*;
use crate::text::{is_text, lower_of, lowercase, push_char};

verus! {

/// Characters that may not stand in a stored file name.
pub open spec fn is_unsafe_char(c: char) -> bool {
    c == '/' || c == '\\' || c == ':' || c == '*' || c == '?' || c == '"' || c == '<' || c == '>'
        || c == '|'
}

/// A character with unsafe ones replaced by `_`.
pub open spec fn safe_char(c: char) -> char {
    if is_unsafe_char(c) {
        '_'
    } else {
        c
    }
}

/// Replaces every character that could break out of the storage directory
/// or is invalid in file names with `_`.
pub fn sanitize_filename(filename: &str) -> (r: String)
    ensures
        r@.len() == filename@.len(),
        forall|i: int| 0 <= i < r@.len() ==> r@[i] == safe_char(#[trigger] filename@[i]),
{
    let n = filename.unicode_len();
    let mut out = String::new();
    let mut i: usize = 0;
    while i < n
        invariant
            i <= n,
            n == filename@.len(),
            out@.len() == i,
            forall|k: int| 0 <= k < i ==> out@[k] == safe_char(#[trigger] filename@[k]),
        decreases n - i,
    {
        let c = filename.get_char(i);
        let d = if c == '/' || c == '\\' || c == ':' || c == '*' || c == '?' || c == '"' || c
            == '<' || c == '>' || c == '|' {
            '_'
        } else {
            c
        };
        push_char(&mut out, d);
        i = i + 1;
    }
    out
}

/// `a` starts the part of `s` after its last `sep` (0 when there is none).
pub open spec fn starts_last_part(s: Seq<char>, sep: char, a: int) -> bool {
    &&& 0 <= a <= s.len()
    &&& (a == 0 || s[a - 1] == sep)
    &&& forall|j: int| a <= j < s.len() ==> s[j] != sep
}

/// `b` ends the part of `s` from `a` up to the first `sep` after it (or the
/// end).
pub open spec fn ends_first_part(s: Seq<char>, sep: char, a: int, b: int) -> bool {
    &&& a <= b <= s.len()
    &&& (b == s.len() || s[b] == sep)
    &&& forall|j: int| a <= j < b ==> s[j] != sep
}

fn last_part_start(s: &str, sep: char) -> (a: usize)
    ensures
        starts_last_part(s@, sep, a as int),
{
    let mut k = s.unicode_len();
    while k > 0 && s.get_char(k - 1) != sep
        invariant
            k <= s@.len(),
            forall|j: int| k <= j < s@.len() ==> s@[j] != sep,
        decreases k,
    {
        k = k - 1;
    }
    k
}

/// The file name to store a picture under: the given one, else the URL's
/// last path segment without its query.
pub fn get_filename(url: &str, filename: &Option<String>) -> (r: String)
    ensures
        match filename {
            Some(name) => r@ == name@,
            None => exists|a: int, b: int|
                starts_last_part(url@, '/', a) && ends_first_part(url@, '?', a, b) && r@
                    == url@.subrange(a, b),
        },
{
    match filename {
        Some(name) => name.clone(),
        None => {
            let a = last_part_start(url, '/');
            let n = url.unicode_len();
            let mut b = a;
            while b < n && url.get_char(b) != '?'
                invariant
                    a <= b <= n,
                    n == url@.len(),
                    forall|j: int| a <= j < b ==> url@[j] != '?',
                decreases n - b,
            {
                b = b + 1;
            }
            url.substring_char(a, b).to_owned()
        },
    }
}

/// The MIME type of a lowercase file extension, for the picture formats
/// that are recognised.
pub open spec fn mime_of(ext: Seq<char>) -> Option<Seq<char>> {
    if ext == "jpg"@ || ext == "jpeg"@ {
        Some("image/jpeg"@)
    } else if ext == "png"@ {
        Some("image/png"@)
    } else if ext == "gif"@ {
        Some("image/gif"@)
    } else if ext == "webp"@ {
        Some("image/webp"@)
    } else if ext == "bmp"@ {
        Some("image/bmp"@)
    } else if ext == "svg"@ {
        Some("image/svg+xml"@)
    } else {
        None
    }
}

/// `r` is the text `m`, or absent when `m` is.
pub open spec fn same_text(r: Option<String>, m: Option<Seq<char>>) -> bool {
    match m {
        Some(t) => r matches Some(s) && s@ == t,
        None => r is None,
    }
}

/// The MIME type of a lowercase extension.
pub fn mime_from_extension(ext: &str) -> (r: Option<String>)
    ensures
        same_text(r, mime_of(ext@)),
{
    let e = ext.to_owned();
    if is_text(&e, "jpg") || is_text(&e, "jpeg") {
        Some("image/jpeg".to_owned())
    } else if is_text(&e, "png") {
        Some("image/png".to_owned())
    } else if is_text(&e, "gif") {
        Some("image/gif".to_owned())
    } else if is_text(&e, "webp") {
        Some("image/webp".to_owned())
    } else if is_text(&e, "bmp") {
        Some("image/bmp".to_owned())
    } else if is_text(&e, "svg") {
        Some("image/svg+xml".to_owned())
    } else {
        None
    }
}

/// The MIME type of a file name, from the text after its last `.` (the
/// whole name when there is none), compared without regard to case.
pub fn detect_mime_type(filename: &str) -> (r: Option<String>)
    ensures
        exists|a: int|
            starts_last_part(filename@, '.', a) && same_text(
                r,
                mime_of(lower_of(filename@.subrange(a, filename@.len() as int))),
            ),
{
    let a = last_part_start(filename, '.');
    let ext = filename.substring_char(a, filename.unicode_len());
    let lower = lowercase(ext);
    mime_from_extension(lower.as_str())
}

} // verus!
