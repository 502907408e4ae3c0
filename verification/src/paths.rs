//! Paths as the engine reads them: file names and extensions by
//! `std::path::Path`, compared without regard to ASCII case.

use vstd::prelude::*;
use vstd::std_specs::iter::IteratorSpec;
use vstd::string::StrSliceExecFns;

verus! {

broadcast use vstd::string::group_string_axioms;

/// The file name of a path as `std::path::Path::file_name` sees it. Stated by
/// std, not here.
pub uninterp spec fn std_path_file_name(path: Seq<char>) -> Option<Seq<char>>;

/// The extension of a path as `std::path::Path::extension` sees it. Stated
/// by std, not here.
pub uninterp spec fn std_path_extension(path: Seq<char>) -> Option<Seq<char>>;

/// The last component of a path, by `std::path::Path::file_name`; the result
/// is named, not stated (text in a `&str` converts to a string losslessly).
#[verifier::external_body]
pub(crate) fn path_file_name(path: &str) -> (name: Option<String>)
    ensures
        match name {
            Some(n) => std_path_file_name(path@) == Some(n@),
            None => std_path_file_name(path@) is None,
        },
{
    match std::path::Path::new(path).file_name() {
        Some(name) => Some(name.to_string_lossy().into_owned()),
        None => None,
    }
}

/// The extension of a path, by `std::path::Path::extension`; the result is
/// named, not stated.
#[verifier::external_body]
fn path_extension(path: &str) -> (extension: Option<String>)
    ensures
        match extension {
            Some(e) => std_path_extension(path@) == Some(e@),
            None => std_path_extension(path@) is None,
        },
{
    match std::path::Path::new(path).extension() {
        Some(extension) => Some(extension.to_string_lossy().into_owned()),
        None => None,
    }
}

/// The stem of a path (its file name without the extension) as
/// `std::path::Path::file_stem` sees it. Stated by std, not here.
pub uninterp spec fn std_path_file_stem(path: Seq<char>) -> Option<Seq<char>>;

/// The stem of a path, by `std::path::Path::file_stem`; the result is named,
/// not stated.
#[verifier::external_body]
pub(crate) fn path_file_stem(path: &str) -> (stem: Option<String>)
    ensures
        match stem {
            Some(s) => std_path_file_stem(path@) == Some(s@),
            None => std_path_file_stem(path@) is None,
        },
{
    match std::path::Path::new(path).file_stem() {
        Some(stem) => Some(stem.to_string_lossy().into_owned()),
        None => None,
    }
}

/// The components of a path as `std::path::Path::components` splits it
/// (repeated separators and inner `.` dropped), each as its text. Stated by
/// std, not here.
pub uninterp spec fn std_path_components(path: Seq<char>) -> Seq<Seq<char>>;

/// The text of each string in a sequence.
pub open spec fn texts(strings: Seq<String>) -> Seq<Seq<char>> {
    strings.map_values(|s: String| s@)
}

/// The components of a path, by `std::path::Path::components`, each as its
/// text (`Component::as_os_str`, lossless for text in a `&str`); the result is
/// named, not stated.
#[verifier::external_body]
pub(crate) fn path_components(path: &str) -> (components: Vec<String>)
    ensures
        texts(components@) == std_path_components(path@),
{
    let mut components = Vec::new();
    for component in std::path::Path::new(path).components() {
        components.push(component.as_os_str().to_string_lossy().into_owned());
    }
    components
}

/// A character with ASCII upper case turned to lower case.
pub open spec fn ascii_lower(c: char) -> char {
    if 'A' <= c && c <= 'Z' {
        ((c as u32) + 32) as char
    } else {
        c
    }
}

/// Text with ASCII upper case turned to lower case.
pub open spec fn ascii_lowercase(s: Seq<char>) -> Seq<char> {
    s.map_values(|c: char| ascii_lower(c))
}

/// A text in ASCII lower case, as a list of characters.
pub(crate) fn lowercase_chars(text: &str) -> (lower: Vec<char>)
    ensures
        lower@ == ascii_lowercase(text@),
{
    let mut lower: Vec<char> = Vec::new();
    let n = text.unicode_len();
    let mut chars = text.chars();
    let mut i: usize = 0;
    loop
        invariant
            n == text@.len(),
            chars.remaining() == text@.skip(i as int),
            i <= text@.len(),
            lower@ == ascii_lowercase(text@.take(i as int)),
        decreases text@.len() - i,
    {
        match chars.next() {
            None => {
                assert(text@.skip(i as int).len() == 0);
                assert(text@.take(i as int) == text@);
                return lower;
            },
            Some(c) => {
                assert(text@.skip(i as int)[0] == text@[i as int]);
                let lowered = if 'A' <= c && c <= 'Z' {
                    ((c as u8) + 32) as char
                } else {
                    c
                };
                lower.push(lowered);
                proof {
                    assert(text@.take(i + 1) == text@.take(i as int).push(c));
                    assert(ascii_lowercase(text@.take(i + 1)) == ascii_lowercase(
                        text@.take(i as int),
                    ).push(ascii_lower(c)));
                }
                assert(text@.skip(i as int).drop_first() == text@.skip(i + 1));
                i = i + 1;
            },
        }
    }
}

/// Whether two lists of characters are equal.
fn chars_equal(a: &[char], b: &[char]) -> (equal: bool)
    ensures
        equal == (a@ == b@),
{
    if a.len() != b.len() {
        return false;
    }
    let mut i: usize = 0;
    while i < a.len()
        invariant
            a@.len() == b@.len(),
            i <= a@.len(),
            forall|k: int| 0 <= k < i ==> a@[k] == b@[k],
        decreases a@.len() - i,
    {
        if a[i] != b[i] {
            return false;
        }
        i = i + 1;
    }
    assert(a@ == b@);
    true
}

/// Whether the extension of a path is `extension` (given in lower case),
/// ignoring ASCII case, as `str::eq_ignore_ascii_case` compares.
pub open spec fn has_extension(path: Seq<char>, extension: Seq<char>) -> bool {
    match std_path_extension(path) {
        Some(e) => ascii_lowercase(e) == extension,
        None => false,
    }
}

/// Whether the extension of `path` is `extension` (in lower case), ignoring
/// ASCII case.
pub(crate) fn path_has_extension(path: &str, extension: &[char]) -> (yes: bool)
    ensures
        yes == has_extension(path@, extension@),
{
    match path_extension(path) {
        Some(e) => {
            let lower = lowercase_chars(e.as_str());
            chars_equal(lower.as_slice(), extension)
        },
        None => false,
    }
}

} // verus!
