use vstd::prelude::*;

use vstd::string::StrSliceExecFns;
use vstd::string::StringExecFns;

verus! {

/// The position of the last slash in a path, or `-1` without one.
pub open spec fn last_slash(p: Seq<char>) -> int
    decreases p.len(),
{
    if p.len() == 0 {
        -1
    } else if p[p.len() - 1] == '/' {
        p.len() - 1
    } else {
        last_slash(p.drop_last())
    }
}

/// The parent directory of a path, textually: everything before the last
/// slash, with the root staying `/`. The root itself and a path without
/// slashes have no parent.
pub open spec fn spec_parent(p: Seq<char>) -> Option<Seq<char>> {
    let d = last_slash(p);
    if d == -1 {
        None
    } else if p.len() == 1 {
        None
    } else if d == 0 {
        Some(seq!['/'])
    } else {
        Some(p.take(d))
    }
}

/// A slash at `d` with none after it is the last one.
proof fn lemma_last_slash_at(p: Seq<char>, d: int)
    requires
        0 <= d < p.len(),
        p[d] == '/',
        forall|k: int| d < k < p.len() ==> p[k] != '/',
    ensures
        last_slash(p) == d,
    decreases p.len(),
{
    if d < p.len() - 1 {
        lemma_last_slash_at(p.drop_last(), d);
    }
}

/// Without any slash there is no last one.
proof fn lemma_last_slash_none(p: Seq<char>)
    requires
        forall|k: int| 0 <= k < p.len() ==> p[k] != '/',
    ensures
        last_slash(p) == -1,
    decreases p.len(),
{
    if p.len() > 0 {
        lemma_last_slash_none(p.drop_last());
    }
}

/// The parent directory of a path, as `spec_parent` says.
pub fn parent_path(path: &str) -> (r: Option<String>)
    ensures
        match r {
            Some(s) => spec_parent(path@) == Some(s@),
            None => spec_parent(path@) is None,
        },
{
    let n = path.unicode_len();
    let mut j: usize = n;
    let mut found: Option<usize> = None;
    while j > 0 && found.is_none()
        invariant
            j <= n,
            n == path@.len(),
            match found {
                None => forall|k: int| j <= k < n ==> path@[k] != '/',
                Some(d) => d < n && path@[d as int] == '/' && forall|k: int|
                    d < k < n ==> path@[k] != '/',
            },
        decreases j,
    {
        if path.get_char(j - 1) == '/' {
            found = Some(j - 1);
        }
        j = j - 1;
    }
    match found {
        None => {
            proof {
                lemma_last_slash_none(path@);
            }
            None
        },
        Some(d) => {
            proof {
                lemma_last_slash_at(path@, d as int);
            }
            if n == 1 {
                None
            } else if d == 0 {
                let root: &str = "/";
                proof {
                    reveal_strlit("/");
                    assert(root@ =~= seq!['/']);
                }
                Some(root.to_owned())
            } else {
                Some(path.substring_char(0, d).to_owned())
            }
        },
    }
}

/// A directory path joined with an entry name: a slash between them unless
/// the directory already ends in one.
pub open spec fn spec_join(dir: Seq<char>, name: Seq<char>) -> Seq<char> {
    if dir.len() > 0 && dir[dir.len() - 1] == '/' {
        dir + name
    } else {
        dir + seq!['/'] + name
    }
}

/// Joins a directory path and an entry name, as `spec_join` says.
pub fn join_path(dir: &str, name: &str) -> (r: String)
    ensures
        r@ == spec_join(dir@, name@),
{
    let n = dir.unicode_len();
    let mut out = dir.to_owned();
    if n == 0 || dir.get_char(n - 1) != '/' {
        let sep: &str = "/";
        proof {
            reveal_strlit("/");
            assert(sep@ =~= seq!['/']);
        }
        out.append(sep);
    }
    out.append(name);
    out
}

/// A file name's extension: the text after the last dot, or the whole name
/// without one. A name ending in a dot has an empty extension.
pub open spec fn spec_extension(name: Seq<char>) -> Seq<char>
    decreases name.len(),
{
    if name.len() == 0 {
        Seq::empty()
    } else if name[name.len() - 1] == '.' {
        Seq::empty()
    } else {
        spec_extension(name.drop_last()).push(name[name.len() - 1])
    }
}

/// After the last dot, the extension is exactly the remaining text.
proof fn lemma_extension_after_dot(p: Seq<char>, d: int)
    requires
        0 <= d < p.len(),
        p[d] == '.',
        forall|k: int| d < k < p.len() ==> p[k] != '.',
    ensures
        spec_extension(p) == p.skip(d + 1),
    decreases p.len(),
{
    if d == p.len() - 1 {
        assert(spec_extension(p) =~= p.skip(d + 1));
    } else {
        lemma_extension_after_dot(p.drop_last(), d);
        assert(p.drop_last().skip(d + 1).push(p[p.len() - 1]) =~= p.skip(d + 1));
    }
}

/// Without a dot, the extension is the whole name.
proof fn lemma_extension_no_dot(p: Seq<char>)
    requires
        forall|k: int| 0 <= k < p.len() ==> p[k] != '.',
    ensures
        spec_extension(p) == p,
    decreases p.len(),
{
    if p.len() > 0 {
        lemma_extension_no_dot(p.drop_last());
        assert(p.drop_last().push(p[p.len() - 1]) =~= p);
    } else {
        assert(spec_extension(p) =~= p);
    }
}

/// The extension of a file name, as `spec_extension` says.
pub fn extension_of(name: &str) -> (r: String)
    ensures
        r@ == spec_extension(name@),
{
    let n = name.unicode_len();
    let mut j: usize = n;
    let mut found: Option<usize> = None;
    while j > 0 && found.is_none()
        invariant
            j <= n,
            n == name@.len(),
            match found {
                None => forall|k: int| j <= k < n ==> name@[k] != '.',
                Some(d) => d < n && name@[d as int] == '.' && forall|k: int|
                    d < k < n ==> name@[k] != '.',
            },
        decreases j,
    {
        if name.get_char(j - 1) == '.' {
            found = Some(j - 1);
        }
        j = j - 1;
    }
    match found {
        None => {
            proof {
                lemma_extension_no_dot(name@);
            }
            name.to_owned()
        },
        Some(d) => {
            proof {
                lemma_extension_after_dot(name@, d as int);
            }
            name.substring_char(d + 1, n).to_owned()
        },
    }
}

} // verus!
