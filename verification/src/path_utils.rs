//! Short display names and raw paths of source files.

use vstd::prelude::*;
use vstd::string::*;

verus! {

/// A path on disk, with the components that the platform's path rules find in it.
#[derive(Debug, Clone, PartialEq, Eq)]
pub struct RealPath {
    /// The path as text.
    pub path: String,
    /// Its final component, where it has one that is valid text.
    pub file_name: Option<String>,
    /// The final component of its parent, where there is one that is valid text.
    pub parent_name: Option<String>,
}

/// The name under which a source file is known.
#[derive(Debug, Clone, PartialEq, Eq)]
pub enum FileName {
    /// A file on disk.
    Real(RealPath),
    /// A name given by the caller: a path from any platform.
    Custom(String),
    /// A source without a path.
    Other,
}

/// The characters of an optional string.
pub open spec fn text_of(text: Option<String>) -> Option<Seq<char>> {
    match text {
        Some(s) => Some(s@),
        None => None,
    }
}

/// The segments of a path between occurrences of a separator: one more than
/// there are separators, possibly empty ones.
pub open spec fn split_path(path: Seq<char>, separator: char) -> Seq<Seq<char>>
    decreases path.len(),
{
    if path.len() == 0 {
        seq![Seq::<char>::empty()]
    } else {
        let before = split_path(path.drop_last(), separator);
        if path.last() == separator {
            before.push(Seq::<char>::empty())
        } else {
            before.drop_last().push(before.last().push(path.last()))
        }
    }
}

/// The characters of each segment.
pub open spec fn segments(parts: Seq<&str>) -> Seq<Seq<char>> {
    Seq::new(parts.len(), |i: int| parts[i]@)
}

/// A path that holds a backslash is split at backslashes, any other at slashes.
pub open spec fn path_separator(path: Seq<char>) -> char {
    if path.contains('\\') {
        '\\'
    } else {
        '/'
    }
}

pub open spec fn starts_with(text: Seq<char>, prefix: Seq<char>) -> bool {
    prefix.len() <= text.len() && text.subrange(0, prefix.len() as int) =~= prefix
}

/// The display name of a file: an `index.*` file is told apart by its directory.
pub open spec fn display_name(file: Seq<char>, parent: Option<Seq<char>>) -> Seq<char> {
    match parent {
        Some(directory) if starts_with(file, "index."@) => directory + "/"@ + file,
        _ => file,
    }
}

/// The display name of a path given as text.
pub open spec fn custom_display_name(path: Seq<char>) -> Seq<char> {
    let parts = split_path(path, path_separator(path));
    let file = if parts.len() > 1 {
        parts.last()
    } else {
        path
    };
    display_name(
        file,
        if parts.len() >= 2 {
            Some(parts[parts.len() - 2])
        } else {
            None
        },
    )
}

/// The display name of a file, where it has one.
pub open spec fn filename_of(filename: FileName) -> Option<Seq<char>> {
    match filename {
        FileName::Real(on_disk) => match on_disk.file_name {
            Some(file) => Some(display_name(file@, text_of(on_disk.parent_name))),
            None => None,
        },
        FileName::Custom(custom) => Some(custom_display_name(custom@)),
        FileName::Other => None,
    }
}

/// The path of a file as it was given, where it has one.
pub open spec fn absolute_path_of(filename: FileName) -> Option<Seq<char>> {
    match filename {
        FileName::Real(on_disk) => Some(on_disk.path@),
        FileName::Custom(custom) => Some(custom@),
        FileName::Other => None,
    }
}

fn split_at_separator(path: &str, separator: char) -> (parts: Vec<&str>)
    ensures
        segments(parts@) == split_path(path@, separator),
{
    let n = path.unicode_len();
    let mut parts: Vec<&str> = Vec::new();
    let mut start: usize = 0;
    let mut i: usize = 0;
    assert(path@.take(0).len() == 0);
    assert(path@.subrange(0, 0) =~= Seq::<char>::empty());
    assert(segments(parts@).push(path@.subrange(0, 0)) =~= seq![Seq::<char>::empty()]);
    while i < n
        invariant
            start <= i <= n,
            n == path@.len(),
            split_path(path@.take(i as int), separator) == segments(parts@).push(
                path@.subrange(start as int, i as int),
            ),
        decreases n - i,
    {
        let ghost before = segments(parts@);
        let ghost open_part = path@.subrange(start as int, i as int);
        proof {
            let next = path@.take(i + 1);
            assert(next.drop_last() =~= path@.take(i as int));
            assert(next.last() == path@[i as int]);
            assert(before.push(open_part).drop_last() =~= before);
        }
        if path.get_char(i) == separator {
            parts.push(path.substring_char(start, i));
            start = i + 1;
            proof {
                assert(segments(parts@) =~= before.push(open_part));
                assert(path@.subrange(start as int, i + 1) =~= Seq::<char>::empty());
            }
        } else {
            proof {
                assert(open_part.push(path@[i as int]) =~= path@.subrange(start as int, i + 1));
            }
        }
        i += 1;
    }
    parts.push(path.substring_char(start, n));
    proof {
        assert(path@.take(n as int) =~= path@);
        assert(segments(parts@) =~= split_path(path@, separator));
    }
    parts
}

fn contains_char(text: &str, wanted: char) -> (found: bool)
    ensures
        found == text@.contains(wanted),
{
    let n = text.unicode_len();
    let mut i: usize = 0;
    while i < n
        invariant
            i <= n,
            n == text@.len(),
            forall|j: int| 0 <= j < i ==> text@[j] != wanted,
        decreases n - i,
    {
        if text.get_char(i) == wanted {
            return true;
        }
        i += 1;
    }
    false
}

fn has_prefix(text: &str, prefix: &str) -> (found: bool)
    ensures
        found == starts_with(text@, prefix@),
{
    let n = prefix.unicode_len();
    if text.unicode_len() < n {
        return false;
    }
    let mut i: usize = 0;
    while i < n
        invariant
            i <= n,
            n == prefix@.len(),
            n <= text@.len(),
            forall|j: int| 0 <= j < i ==> text@[j] == prefix@[j],
        decreases n - i,
    {
        if text.get_char(i) != prefix.get_char(i) {
            assert(text@.subrange(0, n as int)[i as int] != prefix@[i as int]);
            return false;
        }
        i += 1;
    }
    true
}

pub fn parse_unix_path(path: &str) -> (parts: Vec<&str>)
    ensures
        segments(parts@) == split_path(path@, '/'),
{
    split_at_separator(path, '/')
}

pub fn parse_windows_path(path: &str) -> (parts: Vec<&str>)
    ensures
        segments(parts@) == split_path(path@, '\\'),
{
    split_at_separator(path, '\\')
}

/// Splits a path from any platform - decides by the string's content.
pub fn parse_path_with_detection(path: &str) -> (parts: Vec<&str>)
    ensures
        segments(parts@) == split_path(path@, path_separator(path@)),
{
    if contains_char(path, '\\') {
        parse_windows_path(path)
    } else {
        parse_unix_path(path)
    }
}

fn name_with_parent(file: &str, parent: Option<&str>) -> (name: String)
    ensures
        name@ == display_name(
            file@,
            match parent {
                Some(directory) => Some(directory@),
                None => None,
            },
        ),
{
    match parent {
        Some(directory) => {
            if has_prefix(file, "index.") {
                // Always a forward slash, whatever the path was split at
                String::from_str(directory).concat("/").concat(file)
            } else {
                String::from_str(file)
            }
        },
        None => String::from_str(file),
    }
}

/// The short display name of a source file: its final segment, and for an
/// `index.*` file the directory before it as well.
pub fn extract_filename(filename: &FileName) -> (name: Option<String>)
    ensures
        text_of(name) == filename_of(*filename),
{
    match filename {
        FileName::Real(on_disk) => match &on_disk.file_name {
            Some(file_name) => {
                let parent: Option<&str> = match &on_disk.parent_name {
                    Some(parent_name) => Some(parent_name.as_str()),
                    None => None,
                };
                Some(name_with_parent(file_name.as_str(), parent))
            },
            None => None,
        },
        FileName::Custom(custom) => {
            let parts = parse_path_with_detection(custom.as_str());
            let count = parts.len();
            assert(count == segments(parts@).len());
            let file_part: &str = if count > 1 {
                assert(segments(parts@)[count - 1] == parts@[count - 1]@);
                parts[count - 1]
            } else {
                custom.as_str()
            };
            let parent: Option<&str> = if count >= 2 {
                assert(segments(parts@)[count - 2] == parts@[count - 2]@);
                Some(parts[count - 2])
            } else {
                None
            };
            Some(name_with_parent(file_part, parent))
        },
        FileName::Other => None,
    }
}

/// The path of a source file as it was given.
pub fn extract_absolute_path(filename: &FileName) -> (path: Option<String>)
    ensures
        text_of(path) == absolute_path_of(*filename),
{
    match filename {
        FileName::Real(on_disk) => Some(on_disk.path.clone()),
        FileName::Custom(custom) => Some(custom.clone()),
        FileName::Other => None,
    }
}

/// The display name of a source file, as `extract_filename` gives it.
pub fn extract_filename_for_test(filename: &FileName) -> (name: Option<String>)
    ensures
        text_of(name) == filename_of(*filename),
{
    extract_filename(filename)
}

} // verus!
