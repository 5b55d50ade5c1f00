//! What kind of file a path names, read off its extension, and the errors
//! the file layer reports. The reads and writes themselves, and the parsing
//! of the contents, happen outside the crate; only the decision logic and
//! the error texts live here.

use vstd::prelude::*;
use vstd::string::StringExecFns;
use vstd::string::StrSliceExecFns;
use crate::text::str_eq;

verus! {

/// The two configuration formats the file layer accepts.
#[derive(Debug, Clone, Copy, PartialEq, Eq, Structural)]
pub enum FileKind {
    JSON,
    YAML,
}

/// Everything that can go wrong in the file layer. Errors of the outside
/// parsers and of the operating system arrive here as their rendered text.
#[derive(Debug, Clone, PartialEq, Eq)]
pub enum FileError {
    NotFound,
    UnsupportedExtension(String),
    InvalidYAMLSyntax(String),
    InvalidJSONSyntax(String),
    IO(String),
}

/// The largest index at which `c` occurs in `s`, or minus one if it does not.
pub open spec fn last_occurrence(s: Seq<char>, c: char) -> int
    decreases s.len(),
{
    if s.len() == 0 {
        -1
    } else if s.last() == c {
        s.len() - 1
    } else {
        last_occurrence(s.drop_last(), c)
    }
}

/// The extension of the file a path names: what follows the last dot of the
/// final path component, unless that component has no dot or starts with its
/// only dot (a hidden file).
pub open spec fn extension_of(p: Seq<char>) -> Option<Seq<char>> {
    let slash = last_occurrence(p, '/');
    let dot = last_occurrence(p, '.');
    if dot > slash + 1 {
        Some(p.subrange(dot + 1, p.len() as int))
    } else {
        None
    }
}

/// `last_occurrence` over a prefix one longer is settled by the new element.
proof fn lemma_last_occurrence_step(s: Seq<char>, c: char, i: int)
    requires
        0 <= i < s.len(),
    ensures
        last_occurrence(s.take(i + 1), c) == if s[i] == c {
            i
        } else {
            last_occurrence(s.take(i), c)
        },
{
    assert(s.take(i + 1).drop_last() =~= s.take(i));
    assert(s.take(i + 1).last() == s[i]);
}

impl FileKind {
    /// Decides the format from the path's extension: `json` is JSON, `yml`
    /// and `yaml` are YAML; a path without an extension is not found, and
    /// any other extension is unsupported and named in the error.
    pub fn from_path(path: &str) -> (r: Result<FileKind, FileError>)
        ensures
            match r {
                Ok(k) => match k {
                    FileKind::JSON => extension_of(path@) == Some("json"@),
                    FileKind::YAML => extension_of(path@) == Some("yml"@) || extension_of(
                        path@) == Some("yaml"@),
                },
                Err(e) => match e {
                    FileError::NotFound => extension_of(path@) is None,
                    FileError::UnsupportedExtension(x) => extension_of(path@) == Some(x@)
                        && x@ != "json"@ && x@ != "yml"@ && x@ != "yaml"@,
                    _ => false,
                },
            },
    {
        let n = path.unicode_len();
        let mut last_slash: Option<usize> = None;
        let mut last_dot: Option<usize> = None;
        let mut i: usize = 0;
        while i < n
            invariant
                i <= n,
                n == path@.len(),
                match last_slash {
                    Some(j) => j < i && last_occurrence(path@.take(i as int), '/') == j,
                    None => last_occurrence(path@.take(i as int), '/') == -1,
                },
                match last_dot {
                    Some(j) => j < i && last_occurrence(path@.take(i as int), '.') == j,
                    None => last_occurrence(path@.take(i as int), '.') == -1,
                },
            decreases n - i,
        {
            let c = path.get_char(i);
            proof {
                lemma_last_occurrence_step(path@, '/', i as int);
                lemma_last_occurrence_step(path@, '.', i as int);
            }
            if c == '/' {
                last_slash = Some(i);
            } else if c == '.' {
                last_dot = Some(i);
            }
            i = i + 1;
        }
        proof {
            assert(path@.take(n as int) =~= path@);
        }

        let ext_start: Option<usize> = match (last_dot, last_slash) {
            (Some(d), None) => if d > 0 {
                Some(d + 1)
            } else {
                None
            },
            (Some(d), Some(s)) => if d > s + 1 {
                Some(d + 1)
            } else {
                None
            },
            _ => None,
        };

        match ext_start {
            None => Err(FileError::NotFound),
            Some(start) => {
                let ext = path.substring_char(start, n);
                if str_eq(ext, "json") {
                    Ok(FileKind::JSON)
                } else if str_eq(ext, "yml") || str_eq(ext, "yaml") {
                    Ok(FileKind::YAML)
                } else {
                    Err(FileError::UnsupportedExtension(ext.to_owned()))
                }
            },
        }
    }
}

/// The rendered text of each file-layer error.
pub open spec fn error_text(e: FileError) -> Seq<char> {
    match e {
        FileError::NotFound => "No such file or directory"@,
        FileError::UnsupportedExtension(x) => "unsupported file extension "@ + x@
            + " (allowed: yaml | yml | json)"@,
        FileError::InvalidYAMLSyntax(x) => "Invalid YAML syntax: "@ + x@,
        FileError::InvalidJSONSyntax(x) => "Invalid JSON syntax: "@ + x@,
        FileError::IO(x) => x@,
    }
}

impl FileError {
    /// Renders the error as the message the user sees.
    pub fn message(&self) -> (r: String)
        ensures
            r@ == error_text(*self),
    {
        match self {
            FileError::NotFound => "No such file or directory".to_owned(),
            FileError::UnsupportedExtension(extension) => {
                let mut s = String::new();
                s.append("unsupported file extension ");
                s.append(extension.as_str());
                s.append(" (allowed: yaml | yml | json)");
                s
            },
            FileError::InvalidYAMLSyntax(err) => {
                let mut s = String::new();
                s.append("Invalid YAML syntax: ");
                s.append(err.as_str());
                s
            },
            FileError::InvalidJSONSyntax(err) => {
                let mut s = String::new();
                s.append("Invalid JSON syntax: ");
                s.append(err.as_str());
                s
            },
            FileError::IO(err) => err.clone(),
        }
    }
}

} // verus!
