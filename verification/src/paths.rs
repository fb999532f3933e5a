//! Path-string helpers: extracting the bare file name and the extension of a
//! target path, and classifying the source type from the extension.
//!
//! The rules are the library's own: trailing `/` separators are skipped,
//! the file name is everything after the last remaining `/` (none if
//! nothing remains), and the extension is everything after the last `.` of
//! the file name, provided that `.` is not its first character. `..`
//! components are not treated specially.

use vstd::prelude::*;

verus! {

/// Index of the last occurrence of `c` in `s`, or `-1` if `c` does not occur.
pub open spec fn last_pos(s: Seq<char>, c: char) -> int
    decreases s.len(),
{
    if s.len() == 0 {
        -1
    } else if s[s.len() - 1] == c {
        s.len() - 1
    } else {
        last_pos(s.drop_last(), c)
    }
}

pub proof fn lemma_last_pos(s: Seq<char>, c: char)
    ensures
        -1 <= last_pos(s, c) < s.len(),
        last_pos(s, c) >= 0 ==> s[last_pos(s, c)] == c,
        forall|k: int| last_pos(s, c) < k < s.len() ==> s[k] != c,
    decreases s.len(),
{
    if s.len() == 0 {
    } else if s[s.len() - 1] == c {
    } else {
        lemma_last_pos(s.drop_last(), c);
        assert forall|k: int| last_pos(s, c) < k < s.len() implies s[k] != c by {
            if k < s.len() - 1 {
                assert(s.drop_last()[k] == s[k]);
            }
        }
    }
}

/// The path with its trailing `/` separators removed.
pub open spec fn strip_trailing_slashes(path: Seq<char>) -> Seq<char>
    decreases path.len(),
{
    if path.len() > 0 && path[path.len() - 1] == '/' {
        strip_trailing_slashes(path.drop_last())
    } else {
        path
    }
}

/// The bare file name of a path: after trailing `/` separators are skipped,
/// the suffix after the last remaining `/`, or the whole remainder if it
/// holds no `/`; none if nothing remains.
pub open spec fn spec_file_name(path: Seq<char>) -> Option<Seq<char>> {
    let stripped = strip_trailing_slashes(path);
    let tail = stripped.subrange(last_pos(stripped, '/') + 1, stripped.len() as int);
    if tail.len() == 0 {
        None
    } else {
        Some(tail)
    }
}

/// The extension of a file name: the suffix after the last `.`, none if the
/// name holds no `.` or its only `.` is the leading character.
pub open spec fn spec_extension(name: Seq<char>) -> Option<Seq<char>> {
    let j = last_pos(name, '.');
    if j <= 0 {
        None
    } else {
        Some(name.subrange(j + 1, name.len() as int))
    }
}

/// Finds the last occurrence of `c` in `s`.
pub fn rfind_char(s: &str, c: char) -> (r: Option<usize>)
    ensures
        r matches Some(i) ==> i == last_pos(s@, c),
        r is None ==> last_pos(s@, c) == -1,
{
    let len = s.unicode_len();
    let mut i = len;
    proof {
        assert(s@.subrange(0, len as int) =~= s@);
    }
    while i > 0
        invariant
            i <= len,
            len == s@.len(),
            last_pos(s@, c) == last_pos(s@.subrange(0, i as int), c),
        decreases i,
    {
        let ch = s.get_char(i - 1);
        if ch == c {
            proof {
                let sub = s@.subrange(0, i as int);
                assert(sub[sub.len() - 1] == c);
                assert(last_pos(sub, c) == i - 1);
            }
            return Some(i - 1);
        }
        proof {
            let sub = s@.subrange(0, i as int);
            assert(sub[sub.len() - 1] != c);
            assert(sub.drop_last() =~= s@.subrange(0, i - 1));
        }
        i = i - 1;
    }
    proof {
        assert(s@.subrange(0, 0) =~= Seq::<char>::empty());
    }
    None
}

/// Extracts the bare file name of `path`, by the rule of [`spec_file_name`].
pub fn file_name_of(path: &str) -> (r: Option<String>)
    ensures
        r matches Some(n) ==> spec_file_name(path@) matches Some(m) && n@ == m,
        r is None ==> spec_file_name(path@) is None,
{
    let len = path.unicode_len();
    let mut end = len;
    proof {
        assert(path@.subrange(0, len as int) =~= path@);
    }
    while end > 0 && path.get_char(end - 1) == '/'
        invariant
            end <= len,
            len == path@.len(),
            strip_trailing_slashes(path@) == strip_trailing_slashes(
                path@.subrange(0, end as int),
            ),
        decreases end,
    {
        proof {
            let sub = path@.subrange(0, end as int);
            assert(sub[sub.len() - 1] == '/');
            assert(sub.drop_last() =~= path@.subrange(0, end - 1));
        }
        end = end - 1;
    }
    proof {
        let stripped = path@.subrange(0, end as int);
        if end > 0 {
            assert(stripped[stripped.len() - 1] != '/');
        }
        assert(strip_trailing_slashes(path@) == stripped);
        lemma_last_pos(stripped, '/');
    }
    if end == 0 {
        proof {
            assert(strip_trailing_slashes(path@) =~= Seq::<char>::empty());
            assert(strip_trailing_slashes(path@).subrange(0, 0) =~= Seq::<char>::empty());
        }
        return None;
    }
    let stem = path.substring_char(0, end);
    let cut: usize = match rfind_char(stem, '/') {
        Some(i) => i + 1,
        None => 0,
    };
    Some(stem.substring_char(cut, end).to_owned())
}

/// Extracts the extension of the file name `name`, by the rule of
/// [`spec_extension`].
pub fn extension_of(name: &str) -> (r: Option<String>)
    ensures
        r matches Some(e) ==> spec_extension(name@) matches Some(m) && e@ == m,
        r is None ==> spec_extension(name@) is None,
{
    let len = name.unicode_len();
    proof {
        lemma_last_pos(name@, '.');
    }
    match rfind_char(name, '.') {
        None => None,
        Some(j) => {
            if j == 0 {
                None
            } else {
                Some(name.substring_char(j + 1, len).to_owned())
            }
        },
    }
}

/// The classification of a target file derived from its extension: an
/// ordinary Python module, a type-stub file, or a notebook.
#[derive(Clone, Copy, Debug, PartialEq, Eq, Structural)]
pub enum SourceKind {
    Python,
    Stub,
    Notebook,
}

/// The source kind that an extension denotes: `py` and `pyw` are ordinary
/// modules, `pyi` is a stub, `ipynb` is a notebook; anything else is not a
/// recognized Python extension.
pub open spec fn spec_source_kind(ext: Seq<char>) -> Option<SourceKind> {
    if ext == "py"@ || ext == "pyw"@ {
        Some(SourceKind::Python)
    } else if ext == "pyi"@ {
        Some(SourceKind::Stub)
    } else if ext == "ipynb"@ {
        Some(SourceKind::Notebook)
    } else {
        None
    }
}

/// Whether the extension denotes a notebook, whose cells are parsed in the
/// escape-command-aware mode.
pub open spec fn is_notebook_ext(ext: Seq<char>) -> bool {
    ext == "ipynb"@
}

/// Compares two string slices by their character sequences.
pub fn str_eq(a: &str, b: &str) -> (r: bool)
    ensures
        r == (a@ == b@),
{
    let sa = a.to_owned();
    let sb = b.to_owned();
    sa == sb
}

/// Classifies an extension, by the rule of [`spec_source_kind`].
pub fn source_kind_of(ext: &str) -> (r: Option<SourceKind>)
    ensures
        r == spec_source_kind(ext@),
{
    if str_eq(ext, "py") || str_eq(ext, "pyw") {
        Some(SourceKind::Python)
    } else if str_eq(ext, "pyi") {
        Some(SourceKind::Stub)
    } else if str_eq(ext, "ipynb") {
        Some(SourceKind::Notebook)
    } else {
        None
    }
}

} // verus!
