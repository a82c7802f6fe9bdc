use vstd::prelude::*;

verus! {

/// `p` starts with the home-directory marker: it is `~` alone or starts
/// with `~/`.
pub open spec fn has_home_marker(p: Seq<char>) -> bool {
    p == seq!['~'] || (p.len() >= 2 && p[0] == '~' && p[1] == '/')
}

/// What follows the home-directory marker of `p`.
pub open spec fn after_marker(p: Seq<char>) -> Seq<char> {
    if p.len() < 2 {
        Seq::empty()
    } else {
        p.skip(2)
    }
}

/// The path `rest` inside the directory `base`.
pub open spec fn join_path(base: Seq<char>, rest: Seq<char>) -> Seq<char> {
    if base.len() == 0 || base.last() == '/' {
        base + rest
    } else {
        base + seq!['/'] + rest
    }
}

/// `p` with its home-directory marker replaced by `home`.
pub open spec fn expanded(p: Seq<char>, home: Seq<char>) -> Seq<char> {
    if has_home_marker(p) {
        join_path(home, after_marker(p))
    } else {
        p
    }
}

/// `p` expanded against `home` where a home directory is known, else `p`.
pub open spec fn expanded_or_kept(p: Seq<char>, home: Option<Seq<char>>) -> Seq<char> {
    match home {
        Some(h) => expanded(p, h),
        None => p,
    }
}

/// `p` without its trailing separators.
pub open spec fn trim_seps(p: Seq<char>) -> Seq<char>
    decreases p.len(),
{
    if p.len() > 0 && p.last() == '/' {
        trim_seps(p.drop_last())
    } else {
        p
    }
}

/// Index of the last separator in `p`, or -1 where it has none.
pub open spec fn last_sep(p: Seq<char>) -> int
    decreases p.len(),
{
    if p.len() == 0 {
        -1
    } else if p.last() == '/' {
        p.len() - 1
    } else {
        last_sep(p.drop_last())
    }
}

/// The directory that holds the file at `p`: `None` for a bare file name,
/// for the root and for the empty path.
pub open spec fn parent_of(p: Seq<char>) -> Option<Seq<char>> {
    let q = trim_seps(p);
    let k = last_sep(q);
    if k < 0 {
        None
    } else if trim_seps(q.take(k)).len() == 0 {
        Some(seq!['/'])
    } else {
        Some(trim_seps(q.take(k)))
    }
}

/// Home expansion keeps a path that does not start with `~` as it is, so a
/// `~` further in is left alone, and puts the home directory in place of a
/// leading `~/`.
pub proof fn lemma_expand_home(p: Seq<char>, rest: Seq<char>, home: Seq<char>)
    ensures
        p.len() == 0 || p[0] != '~' ==> expanded(p, home) == p,
        expanded(seq!['~', '/'] + rest, home) == join_path(home, rest),
{
    let q = seq!['~', '/'] + rest;
    assert(q[0] == '~' && q[1] == '/');
    assert(q.skip(2) =~= rest);
    if p.len() > 0 && p[0] != '~' {
        assert(p != seq!['~']);
    }
}

/// Relies on directories::BaseDirs::new and BaseDirs::home_dir: the current
/// user's home directory, where the platform reports one. It depends on the
/// environment, so nothing is promised of it.
#[verifier::external_body]
fn home_dir() -> (r: Option<String>) {
    match directories::BaseDirs::new() {
        Some(dirs) => dirs.home_dir().to_str().map(String::from),
        None => None,
    }
}

/// Replaces a leading home-directory marker of `path` by `home`.
pub fn expand_tilde_with(path: &str, home: &str) -> (r: String)
    ensures
        r@ == expanded(path@, home@),
{
    let n = path.unicode_len();
    let marked = n >= 1 && path.get_char(0) == '~' && (n == 1 || path.get_char(1) == '/');
    proof {
        if n == 1 && path@[0] == '~' {
            assert(path@ =~= seq!['~']);
        }
    }
    if !marked {
        return String::from_str(path);
    }
    let start: usize = if n < 2 {
        n
    } else {
        2
    };
    let rest = path.substring_char(start, n);
    let hn = home.unicode_len();
    let mut r = String::from_str(home);
    if !(hn == 0 || home.get_char(hn - 1) == '/') {
        proof {
            reveal_strlit("/");
        }
        r.append("/");
    }
    r.append(rest);
    assert(r@ =~= expanded(path@, home@));
    r
}

/// Replaces a leading home-directory marker of `path` by the current user's
/// home directory; a path without the marker, or one for which no home
/// directory is known, is returned unchanged.
pub fn expand_tilde(path: &str) -> (r: String)
    ensures
        !has_home_marker(path@) ==> r@ == path@,
        exists|home: Option<Seq<char>>| r@ == expanded_or_kept(path@, home),
{
    match home_dir() {
        Some(h) => {
            let r = expand_tilde_with(path, h.as_str());
            assert(r@ == expanded_or_kept(path@, Some(h@)));
            r
        },
        None => {
            let r = String::from_str(path);
            assert(r@ == expanded_or_kept(path@, None));
            r
        },
    }
}

/// Length of `s@.take(end)` once its trailing separators are dropped.
fn trimmed_len(s: &str, end: usize) -> (r: usize)
    requires
        end <= s@.len(),
    ensures
        r <= end,
        s@.take(r as int) == trim_seps(s@.take(end as int)),
{
    let mut i = end;
    while i > 0 && s.get_char(i - 1) == '/'
        invariant
            i <= end <= s@.len(),
            trim_seps(s@.take(i as int)) == trim_seps(s@.take(end as int)),
        decreases i,
    {
        assert(s@.take(i as int).drop_last() =~= s@.take(i - 1));
        i = i - 1;
    }
    i
}

/// Index of the last separator in `s@.take(end)`.
fn last_sep_before(s: &str, end: usize) -> (r: Option<usize>)
    requires
        end <= s@.len(),
    ensures
        match r {
            Some(k) => k < end && k as int == last_sep(s@.take(end as int)),
            None => last_sep(s@.take(end as int)) < 0,
        },
{
    let mut i = end;
    while i > 0 && s.get_char(i - 1) != '/'
        invariant
            i <= end <= s@.len(),
            last_sep(s@.take(i as int)) == last_sep(s@.take(end as int)),
        decreases i,
    {
        assert(s@.take(i as int).drop_last() =~= s@.take(i - 1));
        i = i - 1;
    }
    if i == 0 {
        None
    } else {
        Some(i - 1)
    }
}

/// The directory that must exist before the file at `path` can be created:
/// `None` where `path` is a bare file name (the working directory is taken
/// to exist), the root or empty.
pub fn parent_dir(path: &str) -> (r: Option<String>)
    ensures
        match (r, parent_of(path@)) {
            (Some(d), Some(e)) => d@ == e,
            (None, None) => true,
            _ => false,
        },
{
    let n = path.unicode_len();
    let q = trimmed_len(path, n);
    assert(path@.take(n as int) =~= path@);
    match last_sep_before(path, q) {
        None => None,
        Some(k) => {
            let d = trimmed_len(path, k);
            assert(path@.take(q as int).take(k as int) =~= path@.take(k as int));
            if d == 0 {
                proof {
                    reveal_strlit("/");
                }
                Some(String::from_str("/"))
            } else {
                Some(String::from_str(path.substring_char(0, d)))
            }
        },
    }
}

} // verus!
