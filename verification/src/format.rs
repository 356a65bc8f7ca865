//! Choosing the decoder from a path's extension.

use vstd::prelude::*;
use vstd::string::*;
use crate::error::FromFileError;

verus! {

/// The formats that can be decoded.
#[derive(Clone, Copy, Debug, PartialEq, Eq, Structural)]
pub enum FileFormat {
    Json,
    Yaml,
}

/// The position of the last `c` in `s`, or -1 where `s` holds none.
pub open spec fn last_index_of(s: Seq<char>, c: char) -> int
    decreases s.len(),
{
    if s.len() == 0 {
        -1
    } else if s.last() == c {
        s.len() - 1
    } else {
        last_index_of(s.drop_last(), c)
    }
}

/// The final segment of a path: what follows its last `/`.
pub open spec fn file_name(path: Seq<char>) -> Seq<char> {
    path.skip(last_index_of(path, '/') + 1)
}

/// The extension of a path: what follows the last `.` of its final segment,
/// if that segment holds one.
pub open spec fn extension(path: Seq<char>) -> Option<Seq<char>> {
    let name = file_name(path);
    let dot = last_index_of(name, '.');
    if dot < 0 {
        None
    } else {
        Some(name.skip(dot + 1))
    }
}

/// The format that an extension names: `json` is JSON, `yml` and `yaml` are
/// YAML, and no other extension names one.
pub open spec fn format_of_extension(ext: Seq<char>) -> Option<FileFormat> {
    if ext == seq!['j', 's', 'o', 'n'] {
        Some(FileFormat::Json)
    } else if ext == seq!['y', 'm', 'l'] || ext == seq!['y', 'a', 'm', 'l'] {
        Some(FileFormat::Yaml)
    } else {
        None
    }
}

/// The format in which the file at a path is decoded, if any.
pub open spec fn format_of(path: Seq<char>) -> Option<FileFormat> {
    match extension(path) {
        Some(ext) => format_of_extension(ext),
        None => None,
    }
}

/// `last_index_of` gives a place that holds `c` and is followed by no other
/// `c`, or -1 where there is no `c` at all.
pub proof fn lemma_last_index_of(s: Seq<char>, c: char)
    ensures
        -1 <= last_index_of(s, c) < s.len(),
        last_index_of(s, c) >= 0 ==> s[last_index_of(s, c)] == c,
        forall|j: int| last_index_of(s, c) < j < s.len() ==> s[j] != c,
    decreases s.len(),
{
    if s.len() > 0 && s.last() != c {
        let front = s.drop_last();
        lemma_last_index_of(front, c);
        assert forall|j: int| last_index_of(s, c) < j < s.len() implies s[j] != c by {
            if j < front.len() {
                assert(front[j] == s[j]);
            }
        }
    }
}

/// A path made of any text, a `.` and an extension that holds neither `.`
/// nor `/` has that extension.
pub proof fn lemma_extension_of_suffix(stem: Seq<char>, ext: Seq<char>)
    requires
        forall|j: int| 0 <= j < ext.len() ==> ext[j] != '.' && ext[j] != '/',
    ensures
        extension(stem + seq!['.'] + ext) == Some(ext),
{
    let path = stem + seq!['.'] + ext;
    let slash = last_index_of(path, '/');
    lemma_last_index_of(path, '/');
    assert(path[stem.len() as int] == '.');
    assert(forall|j: int| stem.len() < j < path.len() ==> path[j] == ext[j - stem.len() - 1]);
    assert(slash < stem.len()) by {
        if slash >= stem.len() {
            assert(path[slash] == '/');
        }
    }
    let name = file_name(path);
    let dot = stem.len() - slash - 1;
    assert(name[dot] == '.');
    lemma_last_index_of(name, '.');
    assert(last_index_of(name, '.') == dot) by {
        if last_index_of(name, '.') > dot {
            let k = last_index_of(name, '.');
            assert(name[k] == path[k + slash + 1]);
        }
    }
    assert(name.skip(dot + 1) =~= ext);
}

/// Every path that ends in `.json` is decoded as JSON, and every path that
/// ends in `.yml` or `.yaml` as YAML, whatever stands before the ending.
pub proof fn lemma_suffix_selects_format(stem: Seq<char>)
    ensures
        format_of(stem + seq!['.', 'j', 's', 'o', 'n']) == Some(FileFormat::Json),
        format_of(stem + seq!['.', 'y', 'm', 'l']) == Some(FileFormat::Yaml),
        format_of(stem + seq!['.', 'y', 'a', 'm', 'l']) == Some(FileFormat::Yaml),
{
    let json = seq!['j', 's', 'o', 'n'];
    let yml = seq!['y', 'm', 'l'];
    let yaml = seq!['y', 'a', 'm', 'l'];
    lemma_extension_of_suffix(stem, json);
    lemma_extension_of_suffix(stem, yml);
    lemma_extension_of_suffix(stem, yaml);
    assert(stem + seq!['.', 'j', 's', 'o', 'n'] =~= stem + seq!['.'] + json);
    assert(stem + seq!['.', 'y', 'm', 'l'] =~= stem + seq!['.'] + yml);
    assert(stem + seq!['.', 'y', 'a', 'm', 'l'] =~= stem + seq!['.'] + yaml);
    assert(yml[1] != yaml[1]);
    assert(yml[0] != json[0]);
    assert(yaml[0] != json[0]);
}

/// Whether `s` ends in `tail`.
pub open spec fn ends_with(s: Seq<char>, tail: Seq<char>) -> bool {
    s.len() >= tail.len() && s.skip(s.len() - tail.len()) == tail
}

/// A path that has an extension ends in a `.` followed by that extension.
pub proof fn lemma_extension_is_suffix(path: Seq<char>)
    ensures
        extension(path) matches Some(ext) ==> ends_with(path, seq!['.'] + ext),
{
    if let Some(ext) = extension(path) {
        lemma_last_index_of(path, '/');
        let name = file_name(path);
        lemma_last_index_of(name, '.');
        let dot = last_index_of(name, '.');
        let tail = seq!['.'] + ext;
        assert(name[dot] == '.');
        assert(path.skip(path.len() - tail.len()) =~= tail);
    }
}

/// The format that the ending of a path names: `.json` is JSON, `.yml` and
/// `.yaml` are YAML, and no other ending names one.
pub open spec fn format_by_ending(path: Seq<char>) -> Option<FileFormat> {
    if ends_with(path, seq!['.', 'j', 's', 'o', 'n']) {
        Some(FileFormat::Json)
    } else if ends_with(path, seq!['.', 'y', 'm', 'l']) || ends_with(
        path,
        seq!['.', 'y', 'a', 'm', 'l'],
    ) {
        Some(FileFormat::Yaml)
    } else {
        None
    }
}

/// The format of a path is decided by its ending alone: a path is decoded as
/// JSON exactly where it ends in `.json`, as YAML exactly where it ends in
/// `.yml` or `.yaml`, and has no format with any other ending.
pub proof fn lemma_format_by_ending(path: Seq<char>)
    ensures
        format_of(path) == format_by_ending(path),
{
    let json = seq!['.', 'j', 's', 'o', 'n'];
    let yml = seq!['.', 'y', 'm', 'l'];
    let yaml = seq!['.', 'y', 'a', 'm', 'l'];
    assert(seq!['.'] + seq!['j', 's', 'o', 'n'] =~= json);
    assert(seq!['.'] + seq!['y', 'm', 'l'] =~= yml);
    assert(seq!['.'] + seq!['y', 'a', 'm', 'l'] =~= yaml);
    lemma_extension_is_suffix(path);
    if ends_with(path, json) {
        let stem = path.take(path.len() - json.len());
        assert(path =~= stem + path.skip(path.len() - json.len()));
        lemma_suffix_selects_format(stem);
    }
    if ends_with(path, yml) {
        let stem = path.take(path.len() - yml.len());
        assert(path =~= stem + path.skip(path.len() - yml.len()));
        lemma_suffix_selects_format(stem);
    }
    if ends_with(path, yaml) {
        let stem = path.take(path.len() - yaml.len());
        assert(path =~= stem + path.skip(path.len() - yaml.len()));
        lemma_suffix_selects_format(stem);
    }
}

/// A path whose final segment holds no `.` has no format.
pub proof fn lemma_no_dot_no_format(path: Seq<char>)
    requires
        forall|j: int| 0 <= j < file_name(path).len() ==> file_name(path)[j] != '.',
    ensures
        format_of(path) is None,
{
    lemma_last_index_of(file_name(path), '.');
}

/// Whether two strings hold the same characters.
fn same_text(a: &str, b: &str) -> (same: bool)
    ensures
        same == (a@ == b@),
{
    let n: usize = a.unicode_len();
    if n != b.unicode_len() {
        return false;
    }
    let mut i: usize = 0;
    while i < n
        invariant
            n == a@.len(),
            n == b@.len(),
            i <= n,
            forall|j: int| 0 <= j < i ==> a@[j] == b@[j],
        decreases n - i,
    {
        if a.get_char(i) != b.get_char(i) {
            return false;
        }
        i = i + 1;
    }
    assert(a@ =~= b@);
    true
}

/// The extension of a path, where it has one.
pub fn path_extension(path: &str) -> (r: Option<String>)
    ensures
        match r {
            Some(ext) => extension(path@) == Some(ext@),
            None => extension(path@) is None,
        },
{
    let n: usize = path.unicode_len();
    let ghost s = path@;
    let mut i: usize = n;
    while i > 0
        invariant
            s == path@,
            n == s.len(),
            i <= n,
            forall|j: int| i <= j < n ==> s[j] != '.' && s[j] != '/',
        decreases i,
    {
        let c = path.get_char(i - 1);
        if c == '/' {
            proof {
                lemma_last_index_of(s, '/');
                let name = file_name(s);
                lemma_last_index_of(name, '.');
                if last_index_of(name, '.') >= 0 {
                    let k = last_index_of(name, '.');
                    assert(name[k] == s[k + i]);
                }
            }
            return None;
        }
        if c == '.' {
            proof {
                lemma_last_index_of(s, '/');
                let slash = last_index_of(s, '/');
                assert(slash < i - 1) by {
                    if slash >= i {
                        assert(s[slash] == '/');
                    }
                }
                let name = file_name(s);
                let dot = i - 1 - (slash + 1);
                assert(name[dot] == '.');
                lemma_last_index_of(name, '.');
                if last_index_of(name, '.') > dot {
                    let k = last_index_of(name, '.');
                    assert(name[k] == s[k + slash + 1]);
                }
                assert(name.skip(dot + 1) =~= s.subrange(i as int, n as int));
            }
            return Some(path.substring_char(i, n).to_owned());
        }
        i = i - 1;
    }
    proof {
        lemma_last_index_of(s, '/');
        let name = file_name(s);
        lemma_last_index_of(name, '.');
        if last_index_of(name, '.') >= 0 {
            let k = last_index_of(name, '.');
            assert(name[k] == s[k + last_index_of(s, '/') + 1]);
        }
    }
    None
}

/// The format that an extension names.
pub fn extension_format(ext: &str) -> (r: Option<FileFormat>)
    ensures
        r == format_of_extension(ext@),
{
    proof {
        reveal_strlit("json");
        reveal_strlit("yml");
        reveal_strlit("yaml");
        assert("json"@ =~= seq!['j', 's', 'o', 'n']);
        assert("yml"@ =~= seq!['y', 'm', 'l']);
        assert("yaml"@ =~= seq!['y', 'a', 'm', 'l']);
    }
    if same_text(ext, "json") {
        Some(FileFormat::Json)
    } else if same_text(ext, "yml") || same_text(ext, "yaml") {
        Some(FileFormat::Yaml)
    } else {
        None
    }
}

/// The format in which the file at `path` is decoded. A path without an
/// extension, or with one other than `json`, `yml` and `yaml`, is refused.
pub fn path_format(path: &str) -> (r: Result<FileFormat, FromFileError>)
    ensures
        match r {
            Ok(format) => format_of(path@) == Some(format),
            Err(e) => e is InvalidExtension && format_of(path@) is None,
        },
{
    match path_extension(path) {
        Some(ext) => match extension_format(ext.as_str()) {
            Some(format) => Ok(format),
            None => Err(FromFileError::InvalidExtension),
        },
        None => Err(FromFileError::InvalidExtension),
    }
}

} // verus!
