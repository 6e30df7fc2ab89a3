use vstd::prelude::*;

verus! {

/// Position of the last `c` in `s`, or -1 when `s` holds none.
pub open spec fn last_index_of(s: Seq<char>, c: char) -> int
    decreases s.len(),
{
    if s.len() == 0 {
        -1
    } else if s.last() == c {
        s.len() - 1
    } else {
        last_index_of(s.drop_last(), c)
    }
}

/// `p` without trailing separators and without trailing `/.` components.
pub open spec fn strip_trailing(p: Seq<char>) -> Seq<char>
    decreases p.len(),
{
    if p.len() > 0 && p.last() == '/' {
        strip_trailing(p.drop_last())
    } else if p.len() >= 2 && p.last() == '.' && p[p.len() - 2] == '/' {
        strip_trailing(p.drop_last())
    } else {
        p
    }
}

/// The last component of path `p` (empty when there is none).
pub open spec fn file_name(p: Seq<char>) -> Seq<char> {
    let t = strip_trailing(p);
    t.subrange(last_index_of(t, '/') + 1, t.len() as int)
}

/// The extension of path `p`: what follows the last `.` of its file name,
/// where that dot is not the name's first character. The name `..` has none.
pub open spec fn extension(p: Seq<char>) -> Option<Seq<char>> {
    let name = file_name(p);
    let dot = last_index_of(name, '.');
    if name == seq!['.', '.'] || dot <= 0 {
        None
    } else {
        Some(name.subrange(dot + 1, name.len() as int))
    }
}

proof fn lemma_last_index_of(s: Seq<char>, c: char, k: int)
    requires
        -1 <= k < s.len(),
        k >= 0 ==> s[k] == c,
        forall|j: int| k < j < s.len() ==> s[j] != c,
    ensures
        last_index_of(s, c) == k,
    decreases s.len(),
{
    if s.len() > 0 && k < s.len() - 1 {
        let d = s.drop_last();
        assert forall|j: int| k < j < d.len() implies d[j] != c by {
            assert(d[j] == s[j]);
        }
        lemma_last_index_of(d, c, k);
    }
}

/// Finds where the extension of path `p` lies in `p`.
pub fn extension_range(p: &str) -> (r: Option<(usize, usize)>)
    ensures
        match r {
            Some((a, b)) => a <= b <= p@.len() && extension(p@) == Some(
                p@.subrange(a as int, b as int),
            ),
            None => extension(p@) is None,
        },
{
    let n = p.unicode_len();
    let mut end: usize = n;
    proof {
        assert(p@.subrange(0, n as int) =~= p@);
    }
    while end > 0 && (p.get_char(end - 1) == '/' || (end >= 2 && p.get_char(end - 1) == '.'
        && p.get_char(end - 2) == '/'))
        invariant
            n == p@.len(),
            end <= n,
            strip_trailing(p@.subrange(0, end as int)) == strip_trailing(p@),
        decreases end,
    {
        proof {
            let u = p@.subrange(0, end as int);
            assert(u.drop_last() =~= p@.subrange(0, end - 1));
            assert(u.last() == p@[end - 1]);
            if end >= 2 {
                assert(u[u.len() - 2] == p@[end - 2]);
            }
        }
        end = end - 1;
    }
    let ghost t = p@.subrange(0, end as int);
    proof {
        if end > 0 {
            assert(t.last() == p@[end - 1]);
        }
        if end >= 2 {
            assert(t[t.len() - 2] == p@[end - 2]);
        }
        assert(strip_trailing(t) == t);
    }
    let mut start: usize = end;
    while start > 0 && p.get_char(start - 1) != '/'
        invariant
            n == p@.len(),
            start <= end <= n,
            t == p@.subrange(0, end as int),
            forall|j: int| start <= j < end ==> p@[j] != '/',
        decreases start,
    {
        start = start - 1;
    }
    let ghost name = p@.subrange(start as int, end as int);
    proof {
        lemma_last_index_of(t, '/', start - 1);
        assert(name =~= t.subrange(start as int, end as int));
        assert(file_name(p@) == name);
    }
    if end - start == 2 && p.get_char(start) == '.' && p.get_char(start + 1) == '.' {
        proof {
            assert(name =~= seq!['.', '.']);
        }
        return None;
    }
    let mut d: usize = end;
    while d > start && p.get_char(d - 1) != '.'
        invariant
            n == p@.len(),
            start <= d <= end <= n,
            name == p@.subrange(start as int, end as int),
            forall|j: int| d <= j < end ==> p@[j] != '.',
        decreases d,
    {
        d = d - 1;
    }
    proof {
        lemma_last_index_of(name, '.', d - 1 - start);
    }
    if d > start + 1 {
        proof {
            assert(name.subrange(d - start, name.len() as int) =~= p@.subrange(
                d as int,
                end as int,
            ));
        }
        Some((d, end))
    } else {
        None
    }
}

} // verus!
