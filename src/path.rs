use vstd::prelude::*;
use vstd::string::*;

verus! {

/// The path with every trailing `/` and every trailing `/.` component
/// removed: neither names a file of its own.
pub open spec fn trim_trailing_slashes(s: Seq<char>) -> Seq<char>
    decreases s.len(),
{
    if s.len() > 0 && s.last() == '/' {
        trim_trailing_slashes(s.drop_last())
    } else if s.len() >= 2 && s.last() == '.' && s[s.len() - 2] == '/' {
        trim_trailing_slashes(s.subrange(0, s.len() - 2))
    } else {
        s
    }
}

/// The index of the last `c` in `s`, or -1 where `s` holds none.
pub open spec fn last_index_of(s: Seq<char>, c: char) -> int
    decreases s.len(),
{
    if s.len() == 0 {
        -1
    } else if s.last() == c {
        s.len() - 1
    } else {
        last_index_of(s.drop_last(), c)
    }
}

/// What follows the last `/` once trailing slashes are gone.
pub open spec fn final_component(s: Seq<char>) -> Seq<char> {
    let t = trim_trailing_slashes(s);
    t.subrange(last_index_of(t, '/') + 1, t.len() as int)
}

/// The file name of a path: its final component, unless that is empty, `.` or `..`.
pub open spec fn file_name_of(s: Seq<char>) -> Option<Seq<char>> {
    let b = final_component(s);
    if b.len() == 0 || b == seq!['.'] || b == seq!['.', '.'] {
        None
    } else {
        Some(b)
    }
}

/// The extension of a file name: what follows its last `.`, where that dot
/// does not open the name.
pub open spec fn extension_of(name: Seq<char>) -> Option<Seq<char>> {
    let i = last_index_of(name, '.');
    if i > 0 {
        Some(name.subrange(i + 1, name.len() as int))
    } else {
        None
    }
}

/// The extension of the file name of a path, if it has both.
pub open spec fn path_extension(s: Seq<char>) -> Option<Seq<char>> {
    match file_name_of(s) {
        Some(name) => extension_of(name),
        None => None,
    }
}

/// `name` placed under the directory `dir`.
pub open spec fn joined(dir: Seq<char>, name: Seq<char>) -> Seq<char> {
    if dir.len() == 0 {
        name
    } else if dir.last() == '/' {
        dir + name
    } else {
        dir + seq!['/'] + name
    }
}

/// Whether `s` begins with `p`.
pub open spec fn has_prefix(s: Seq<char>, p: Seq<char>) -> bool {
    p.len() <= s.len() && s.subrange(0, p.len() as int) == p
}

/// Tests whether `s` begins with `p`.
pub fn starts_with(s: &str, p: &str) -> (r: bool)
    ensures
        r == has_prefix(s@, p@),
{
    let n = p.unicode_len();
    if n > s.unicode_len() {
        return false;
    }
    let mut i: usize = 0;
    while i < n
        invariant
            n == p@.len(),
            n <= s@.len(),
            i <= n,
            forall|j: int| 0 <= j < i ==> s@[j] == p@[j],
        decreases n - i,
    {
        if s.get_char(i) != p.get_char(i) {
            assert(s@.subrange(0, n as int)[i as int] != p@[i as int]);
            return false;
        }
        i = i + 1;
    }
    assert(s@.subrange(0, n as int) =~= p@);
    true
}

/// The number of characters of `s` that remain once trailing slashes and
/// `/.` components are gone.
fn trimmed_len(s: &str) -> (n: usize)
    ensures
        n <= s@.len(),
        trim_trailing_slashes(s@) == s@.subrange(0, n as int),
{
    let mut n = s.unicode_len();
    assert(s@.subrange(0, n as int) =~= s@);
    loop
        invariant
            n <= s@.len(),
            trim_trailing_slashes(s@) == trim_trailing_slashes(s@.subrange(0, n as int)),
        decreases n,
    {
        let ghost t = s@.subrange(0, n as int);
        if n > 0 && s.get_char(n - 1) == '/' {
            assert(t.drop_last() =~= s@.subrange(0, n - 1));
            n = n - 1;
        } else if n >= 2 && s.get_char(n - 1) == '.' && s.get_char(n - 2) == '/' {
            assert(t.subrange(0, t.len() - 2) =~= s@.subrange(0, n - 2));
            n = n - 2;
        } else {
            return n;
        }
    }
}

/// The index of the last `c` among the first `end` characters of `s`.
fn last_index_before(s: &str, end: usize, c: char) -> (r: Option<usize>)
    requires
        end <= s@.len(),
    ensures
        r matches Some(i) ==> i < end && last_index_of(s@.subrange(0, end as int), c) == i,
        r is None ==> last_index_of(s@.subrange(0, end as int), c) == -1,
{
    let mut i = end;
    while i > 0
        invariant
            i <= end <= s@.len(),
            last_index_of(s@.subrange(0, end as int), c) == last_index_of(
                s@.subrange(0, i as int),
                c,
            ),
        decreases i,
    {
        if s.get_char(i - 1) == c {
            return Some(i - 1);
        }
        assert(s@.subrange(0, i as int).drop_last() =~= s@.subrange(0, i - 1));
        i = i - 1;
    }
    None
}

/// The file name of a path written with `/`: its last component once
/// trailing slashes and `.` components are dropped, unless that is empty,
/// `.` or `..`.
pub fn file_name(s: &str) -> (r: Option<String>)
    ensures
        r matches Some(name) ==> file_name_of(s@) == Some(name@),
        r is None ==> file_name_of(s@) is None,
{
    let n = trimmed_len(s);
    let ghost t = s@.subrange(0, n as int);
    let start: usize = match last_index_before(s, n, '/') {
        Some(i) => i + 1,
        None => 0,
    };
    assert(t.subrange(0, n as int) =~= t);
    let b = s.substring_char(start, n);
    assert(b@ =~= final_component(s@));
    let len = n - start;
    if len == 0 {
        return None;
    }
    if len <= 2 && b.get_char(0) == '.' && (len == 1 || b.get_char(1) == '.') {
        assert(b@ =~= seq!['.'] || b@ =~= seq!['.', '.']);
        return None;
    }
    assert(b@ != seq!['.']) by {
        if len == 1 {
            assert(b@[0] != '.');
        }
    }
    assert(b@ != seq!['.', '.']) by {
        if len == 2 {
            assert(b@[0] != '.' || b@[1] != '.');
        }
    }
    Some(String::from_str(b))
}

/// The extension of a file name, as `Path::extension` gives it.
pub fn extension(name: &str) -> (r: Option<String>)
    ensures
        r matches Some(e) ==> extension_of(name@) == Some(e@),
        r is None ==> extension_of(name@) is None,
{
    let n = name.unicode_len();
    assert(name@.subrange(0, n as int) =~= name@);
    match last_index_before(name, n, '.') {
        Some(i) => {
            if i > 0 {
                Some(String::from_str(name.substring_char(i + 1, n)))
            } else {
                None
            }
        },
        None => None,
    }
}

/// Places `name` under the directory `dir`, as `Path::join` does for a
/// relative name.
pub fn join(dir: &str, name: &str) -> (r: String)
    ensures
        r@ == joined(dir@, name@),
{
    let n = dir.unicode_len();
    if n == 0 {
        String::from_str(name)
    } else if dir.get_char(n - 1) == '/' {
        String::from_str(dir).concat(name)
    } else {
        proof {
            reveal_strlit("/");
        }
        let r = String::from_str(dir).concat("/").concat(name);
        assert(r@ =~= dir@ + seq!['/'] + name@);
        r
    }
}

} // verus!
