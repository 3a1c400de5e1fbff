use vstd::prelude::*;
use vstd::string::*;

verus! {

/// Position of the last `c` in `s`, or -1 when `s` holds none.
pub open spec fn last_index(s: Seq<char>, c: char) -> int
    decreases s.len(),
{
    if s.len() == 0 {
        -1
    } else if s.last() == c {
        s.len() - 1
    } else {
        last_index(s.drop_last(), c)
    }
}

proof fn lemma_last_index_bounds(s: Seq<char>, c: char)
    ensures
        -1 <= last_index(s, c) < s.len(),
        last_index(s, c) >= 0 ==> s[last_index(s, c)] == c,
        forall|j: int| last_index(s, c) < j < s.len() ==> s[j] != c,
    decreases s.len(),
{
    if s.len() > 0 && s.last() != c {
        lemma_last_index_bounds(s.drop_last(), c);
        assert forall|j: int| last_index(s, c) < j < s.len() implies s[j] != c by {
            if j < s.len() - 1 {
                assert(s[j] == s.drop_last()[j]);
            }
        }
    }
}

proof fn lemma_last_index_prefix(s: Seq<char>, c: char, k: int)
    requires
        0 <= k <= s.len(),
        forall|j: int| k <= j < s.len() ==> s[j] != c,
    ensures
        last_index(s, c) == last_index(s.subrange(0, k), c),
    decreases s.len() - k,
{
    if k < s.len() {
        assert(s.drop_last() =~= s.subrange(0, s.len() - 1));
        assert(s.drop_last().subrange(0, k) =~= s.subrange(0, k));
        lemma_last_index_prefix(s.drop_last(), c, k);
    } else {
        assert(s.subrange(0, k) =~= s);
    }
}

/// Finds the last `c` in `s`.
pub fn find_last(s: &str, c: char) -> (r: Option<usize>)
    ensures
        match r {
            Some(i) => i as int == last_index(s@, c),
            None => last_index(s@, c) == -1,
        },
{
    let n = s.unicode_len();
    let mut i: usize = n;
    while i > 0
        invariant
            n == s@.len(),
            i <= n,
            forall|j: int| i <= j < n ==> s@[j] != c,
        decreases i,
    {
        if s.get_char(i - 1) == c {
            proof {
                lemma_last_index_prefix(s@, c, i as int);
                let p = s@.subrange(0, i as int);
                assert(p.last() == c);
            }
            return Some(i - 1);
        }
        i = i - 1;
    }
    proof {
        lemma_last_index_prefix(s@, c, 0);
    }
    None
}

/// `rel` resolved against `base`: an absolute `rel` stands alone, otherwise
/// the two are joined with exactly one separator.
pub open spec fn joined(base: Seq<char>, rel: Seq<char>) -> Seq<char> {
    if rel.len() > 0 && rel[0] == '/' {
        rel
    } else if base.len() == 0 {
        rel
    } else if base.last() == '/' {
        base + rel
    } else {
        base + seq!['/'] + rel
    }
}

/// `s` without its trailing separators.
pub open spec fn trim_trailing(s: Seq<char>) -> Seq<char>
    decreases s.len(),
{
    if s.len() > 0 && s.last() == '/' {
        trim_trailing(s.drop_last())
    } else {
        s
    }
}

/// The directory that holds `p`, trailing separators aside: what stands
/// before its last separator, without the separators that end it (the root
/// for a name directly under it, the empty path for a bare name), and none
/// for the empty path and the root itself.
pub open spec fn parent_of(p: Seq<char>) -> Option<Seq<char>> {
    let t = trim_trailing(p);
    let i = last_index(t, '/');
    if t.len() == 0 {
        None
    } else if i < 0 {
        Some(Seq::empty())
    } else if trim_trailing(t.subrange(0, i)).len() == 0 {
        Some(seq!['/'])
    } else {
        Some(trim_trailing(t.subrange(0, i)))
    }
}

/// `p` with the extension of its file name replaced by `.toml` (added when
/// it has none). Trailing separators are dropped; a leading dot does not
/// start an extension. A path with no file name (empty, the root, or ending
/// in `.` or `..`) is kept.
pub open spec fn with_toml_extension(p: Seq<char>) -> Seq<char> {
    let t = trim_trailing(p);
    let start = last_index(t, '/') + 1;
    let name = t.subrange(start, t.len() as int);
    let dot = last_index(name, '.');
    if name.len() == 0 || name == seq!['.'] || name == seq!['.', '.'] {
        p
    } else if dot > 0 {
        t.subrange(0, start + dot) + ".toml"@
    } else {
        t + ".toml"@
    }
}

proof fn lemma_trim_trailing_prefix(s: Seq<char>, k: int)
    requires
        0 < k <= s.len(),
        s[k - 1] == '/',
    ensures
        trim_trailing(s.subrange(0, k)) == trim_trailing(s.subrange(0, k - 1)),
{
    assert(s.subrange(0, k).drop_last() =~= s.subrange(0, k - 1));
}

/// The length of `s` once its trailing separators are dropped.
pub fn trimmed_len(s: &str) -> (r: usize)
    ensures
        r <= s@.len(),
        s@.subrange(0, r as int) == trim_trailing(s@),
{
    let n = s.unicode_len();
    let mut i: usize = n;
    assert(s@.subrange(0, n as int) =~= s@);
    while i > 0 && s.get_char(i - 1) == '/'
        invariant
            n == s@.len(),
            i <= n,
            trim_trailing(s@.subrange(0, i as int)) == trim_trailing(s@),
        decreases i,
    {
        proof {
            lemma_trim_trailing_prefix(s@, i as int);
        }
        i = i - 1;
    }
    i
}

/// Joins `rel` onto `base`.
pub fn join_path(base: &str, rel: &str) -> (r: String)
    ensures
        r@ == joined(base@, rel@),
{
    let nb = base.unicode_len();
    let nr = rel.unicode_len();
    if nr > 0 && rel.get_char(0) == '/' {
        String::from_str(rel)
    } else if nb == 0 {
        String::from_str(rel)
    } else if base.get_char(nb - 1) == '/' {
        String::from_str(base).concat(rel)
    } else {
        let sep = "/";
        proof {
            reveal_strlit("/");
        }
        let r = String::from_str(base).concat(sep).concat(rel);
        assert(r@ =~= base@ + seq!['/'] + rel@);
        r
    }
}

/// The directory that holds `p`.
pub fn parent_path(p: &str) -> (r: Option<String>)
    ensures
        match r {
            Some(s) => parent_of(p@) == Some(s@),
            None => parent_of(p@) is None,
        },
{
    let k = trimmed_len(p);
    if k == 0 {
        return None;
    }
    let t = p.substring_char(0, k);
    match find_last(t, '/') {
        None => Some(String::new()),
        Some(i) => {
            proof {
                lemma_last_index_bounds(t@, '/');
            }
            let head = t.substring_char(0, i);
            let j = trimmed_len(head);
            if j == 0 {
                proof {
                    reveal_strlit("/");
                }
                let r = String::from_str("/");
                assert(r@ =~= seq!['/']);
                Some(r)
            } else {
                Some(String::from_str(head.substring_char(0, j)))
            }
        },
    }
}

/// The path of the configuration file that sits next to the worker at `p`.
pub fn config_path(p: &str) -> (r: String)
    ensures
        r@ == with_toml_extension(p@),
{
    let k = trimmed_len(p);
    let t = p.substring_char(0, k);
    proof {
        lemma_last_index_bounds(t@, '/');
        reveal_strlit(".toml");
    }
    let start: usize = match find_last(t, '/') {
        Some(i) => i + 1,
        None => 0,
    };
    let name = t.substring_char(start, k);
    let nl = k - start;
    if nl == 0 {
        return String::from_str(p);
    }
    if nl <= 2 && name.get_char(0) == '.' && (nl == 1 || name.get_char(1) == '.') {
        assert(name@ =~= seq!['.'] || name@ =~= seq!['.', '.']);
        return String::from_str(p);
    }
    assert(!(name@ =~= seq!['.']) && !(name@ =~= seq!['.', '.']));
    match find_last(name, '.') {
        Some(d) => {
            proof {
                lemma_last_index_bounds(name@, '.');
            }
            if d > 0 {
                let stem = t.substring_char(0, start + d);
                String::from_str(stem).concat(".toml")
            } else {
                String::from_str(t).concat(".toml")
            }
        },
        None => String::from_str(t).concat(".toml"),
    }
}

} // verus!
