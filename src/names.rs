use vstd::prelude::*;
use vstd::string::StrSliceExecFns;

verus! {

/// Whether `c` separates path components: `/` everywhere, and a backslash too on Windows.
pub open spec fn is_separator(c: char, windows_paths: bool) -> bool {
    c == '/' || (windows_paths && c as u32 == 92)
}

/// Whether `c` separates path components: `/` everywhere, and a backslash too on Windows.
pub fn is_separator_char(c: char, windows_paths: bool) -> (r: bool)
    ensures
        r == is_separator(c, windows_paths),
{
    c == '/' || (windows_paths && c as u32 == 92)
}

/// A name that, joined to a directory, names an entry directly inside it: not empty, not
/// `.` or `..`, without separators or NUL, and on Windows without a colon, which would
/// start a drive prefix or a stream name.
pub open spec fn is_plain_file_name(name: Seq<char>, windows_paths: bool) -> bool {
    &&& name.len() > 0
    &&& name != seq!['.']
    &&& name != seq!['.', '.']
    &&& forall|i: int|
        0 <= i < name.len() ==> !is_separator(#[trigger] name[i], windows_paths) && name[i]
            as u32 != 0 && !(windows_paths && name[i] == ':')
}

/// The characters of `s`, in order.
pub fn chars_of(s: &str) -> (r: Vec<char>)
    ensures
        r@ == s@,
{
    let n = s.unicode_len();
    let mut out: Vec<char> = Vec::new();
    let mut i: usize = 0;
    while i < n
        invariant
            n == s@.len(),
            i <= n,
            out@ == s@.take(i as int),
        decreases n - i,
    {
        out.push(s.get_char(i));
        assert(out@ =~= s@.take(i + 1));
        i = i + 1;
    }
    assert(s@.take(n as int) =~= s@);
    out
}

/// Whether `name` is a plain file name (see [`is_plain_file_name`]).
pub fn plain_file_name(name: &str, windows_paths: bool) -> (r: bool)
    ensures
        r == is_plain_file_name(name@, windows_paths),
{
    let cs = chars_of(name);
    let n = cs.len();
    if n == 0 {
        return false;
    }
    if n == 1 && cs[0] == '.' {
        assert(name@ =~= seq!['.']);
        return false;
    }
    if n == 2 && cs[0] == '.' && cs[1] == '.' {
        assert(name@ =~= seq!['.', '.']);
        return false;
    }
    proof {
        if n == 1 {
            assert(name@ != seq!['.']) by {
                if name@ == seq!['.'] {
                    assert(name@[0] == '.');
                }
            }
        }
        if n == 2 {
            assert(name@ != seq!['.', '.']) by {
                if name@ == seq!['.', '.'] {
                    assert(name@[0] == '.' && name@[1] == '.');
                }
            }
        }
    }
    let mut i: usize = 0;
    while i < n
        invariant
            n == cs@.len(),
            cs@ == name@,
            i <= n,
            forall|j: int|
                0 <= j < i ==> !is_separator(#[trigger] cs@[j], windows_paths) && cs@[j] as u32
                    != 0 && !(windows_paths && cs@[j] == ':'),
        decreases n - i,
    {
        let c = cs[i];
        if is_separator_char(c, windows_paths) || c as u32 == 0 || (windows_paths && c == ':') {
            assert(!(!is_separator(name@[i as int], windows_paths) && name@[i as int] as u32 != 0
                && !(windows_paths && name@[i as int] == ':')));
            return false;
        }
        i = i + 1;
    }
    true
}

/// Whether the characters after the last `.` of `name` spell `jar` in any case; a name
/// whose only `.` is its first character has no extension.
pub open spec fn has_jar_extension(name: Seq<char>) -> bool {
    let n = name.len();
    &&& n >= 5
    &&& name[n - 4] == '.'
    &&& (name[n - 3] == 'j' || name[n - 3] == 'J')
    &&& (name[n - 2] == 'a' || name[n - 2] == 'A')
    &&& (name[n - 1] == 'r' || name[n - 1] == 'R')
}

/// Whether `name` has the extension `jar`, in any case.
pub fn is_jar_name(name: &str) -> (r: bool)
    ensures
        r == has_jar_extension(name@),
{
    let cs = chars_of(name);
    let n = cs.len();
    n >= 5 && cs[n - 4] == '.' && (cs[n - 3] == 'j' || cs[n - 3] == 'J') && (cs[n - 2] == 'a'
        || cs[n - 2] == 'A') && (cs[n - 1] == 'r' || cs[n - 1] == 'R')
}

/// Where the last component of `path[..e]` ends once trailing separators and `.`
/// components are set aside, as path parsing does.
pub open spec fn trimmed_end(path: Seq<char>, e: int, windows_paths: bool) -> int
    decreases e,
{
    if e <= 0 || e > path.len() {
        0
    } else if is_separator(path[e - 1], windows_paths) {
        trimmed_end(path, e - 1, windows_paths)
    } else if path[e - 1] == '.' && (e == path.len() || is_separator(path[e], windows_paths)) && (e
        == 1 || is_separator(path[e - 2], windows_paths)) {
        trimmed_end(path, e - 1, windows_paths)
    } else {
        e
    }
}

/// Whether the last component of `path` is `mods`: it ends where trailing separators and `.`
/// components begin, and it starts the path, follows a separator, or follows a Windows
/// drive prefix such as `C:`.
pub open spec fn names_mods_dir(path: Seq<char>, windows_paths: bool) -> bool {
    let e = trimmed_end(path, path.len() as int, windows_paths);
    &&& e >= 4
    &&& path[e - 4] == 'm'
    &&& path[e - 3] == 'o'
    &&& path[e - 2] == 'd'
    &&& path[e - 1] == 's'
    &&& (e == 4 || is_separator(path[e - 5], windows_paths) || (windows_paths && e == 6
        && path[1] == ':' && is_ascii_letter(path[0])))
}

/// Whether `c` is an ASCII letter.
pub open spec fn is_ascii_letter(c: char) -> bool {
    ('a' <= c && c <= 'z') || ('A' <= c && c <= 'Z')
}

/// Whether the last component of `path` is `mods` (see [`names_mods_dir`]).
pub fn ends_in_mods(path: &str, windows_paths: bool) -> (r: bool)
    ensures
        r == names_mods_dir(path@, windows_paths),
{
    let cs = chars_of(path);
    let n = cs.len();
    let mut e: usize = n;
    loop
        invariant
            n == cs@.len(),
            cs@ == path@,
            e <= n,
            trimmed_end(path@, n as int, windows_paths) == trimmed_end(path@, e as int, windows_paths),
        ensures
            e <= n,
            trimmed_end(path@, n as int, windows_paths) == e,
        decreases e,
    {
        if e == 0 {
            break;
        }
        let c = cs[e - 1];
        if is_separator_char(c, windows_paths) {
            e = e - 1;
        } else if c == '.' && (e == n || is_separator_char(cs[e], windows_paths)) && (e == 1
            || is_separator_char(cs[e - 2], windows_paths)) {
            e = e - 1;
        } else {
            break;
        }
    }
    e >= 4 && cs[e - 4] == 'm' && cs[e - 3] == 'o' && cs[e - 2] == 'd' && cs[e - 1] == 's' && (e
        == 4 || is_separator_char(cs[e - 5], windows_paths) || (windows_paths && e == 6 && cs[1]
        == ':' && (('a' <= cs[0] && cs[0] <= 'z') || ('A' <= cs[0] && cs[0] <= 'Z'))))
}

} // verus!
