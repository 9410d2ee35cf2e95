//! Path normalization for the directory cache.
//!
//! Directory-cache keys are normalized so that `"/a"` and `"/a/"` share one
//! slot while the root `"/"` keeps its single slash.

use vstd::prelude::*;

verus! {

/// Drop every trailing `'/'` from a character sequence.
pub open spec fn strip_trailing_slashes(s: Seq<char>) -> Seq<char>
    decreases s.len(),
{
    if s.len() > 0 && s.last() == '/' {
        strip_trailing_slashes(s.drop_last())
    } else {
        s
    }
}

/// The normalized form of a directory path: `"/"` stays itself, every other
/// path loses its trailing slashes.
pub open spec fn normalize_dir_spec(s: Seq<char>) -> Seq<char> {
    if s =~= seq!['/'] {
        s
    } else {
        strip_trailing_slashes(s)
    }
}

proof fn lemma_strip_trailing_is_prefix(s: Seq<char>, end: int)
    requires
        0 <= end <= s.len(),
        forall|i: int| end <= i < s.len() ==> s[i] == '/',
        end > 0 ==> s[end - 1] != '/',
    ensures
        strip_trailing_slashes(s) =~= s.subrange(0, end),
    decreases s.len() - end,
{
    if end == s.len() {
        if s.len() > 0 && s.last() == '/' {
            assert(s[end - 1] == '/');
            assert(false);
        }
        assert(strip_trailing_slashes(s) =~= s.subrange(0, end));
    } else {
        assert(s.last() == '/');
        let t = s.drop_last();
        assert(t =~= s.subrange(0, s.len() - 1));
        lemma_strip_trailing_is_prefix(t, end);
        assert(t.subrange(0, end) =~= s.subrange(0, end));
    }
}

/// Normalize a directory path for use as a cache key: `"/"` maps to `"/"`,
/// any other path has its trailing slashes removed.
pub fn normalize_dir_path(path: &str) -> (r: String)
    ensures
        r@ == normalize_dir_spec(path@),
{
    let n = path.unicode_len();
    if n == 1 && path.get_char(0) == '/' {
        assert(path@ =~= seq!['/']);
        return path.to_owned();
    }
    assert(!(path@ =~= seq!['/']));
    let mut end = n;
    while end > 0 && path.get_char(end - 1) == '/'
        invariant
            0 <= end <= path@.len(),
            n == path@.len(),
            forall|i: int| end <= i < path@.len() ==> path@[i] == '/',
        decreases end,
    {
        end = end - 1;
    }
    proof {
        lemma_strip_trailing_is_prefix(path@, end as int);
    }
    let r = path.substring_char(0, end);
    r.to_owned()
}

/// Accumulator-style split of a path into its non-empty `'/'`-separated
/// segments, starting at index `i` with `cur` holding the segment read so far.
pub open spec fn segs_acc(s: Seq<char>, i: int, cur: Seq<char>) -> Seq<Seq<char>>
    decreases s.len() - i,
{
    if i < 0 || i >= s.len() {
        if cur.len() > 0 {
            seq![cur]
        } else {
            Seq::empty()
        }
    } else if s[i] == '/' {
        if cur.len() > 0 {
            seq![cur] + segs_acc(s, i + 1, Seq::empty())
        } else {
            segs_acc(s, i + 1, Seq::empty())
        }
    } else {
        segs_acc(s, i + 1, cur.push(s[i]))
    }
}

/// The non-empty `'/'`-separated segments of a path.
pub open spec fn path_segments(s: Seq<char>) -> Seq<Seq<char>> {
    segs_acc(s, 0, Seq::empty())
}

/// Segments joined with `'/'` between them.
pub open spec fn join_slash(parts: Seq<Seq<char>>) -> Seq<char>
    decreases parts.len(),
{
    if parts.len() == 0 {
        Seq::empty()
    } else if parts.len() == 1 {
        parts[0]
    } else {
        join_slash(parts.drop_last()) + seq!['/'] + parts.last()
    }
}

/// The parent directory of a path: `None` for the root, otherwise the
/// normalized path with its last segment removed, always rendered absolute.
pub open spec fn parent_dir_spec(s: Seq<char>) -> Option<Seq<char>> {
    let p = normalize_dir_spec(s);
    if p =~= seq!['/'] {
        None
    } else {
        let ps = path_segments(p);
        let pp = if ps.len() > 0 {
            ps.drop_last()
        } else {
            ps
        };
        Some(seq!['/'] + join_slash(pp))
    }
}

pub open spec fn seq_views(v: Seq<String>) -> Seq<Seq<char>> {
    v.map_values(|x: String| x@)
}

/// Split a path into its non-empty `'/'`-separated segments.
pub fn split_segments(p: &str) -> (parts: Vec<String>)
    ensures
        seq_views(parts@) == path_segments(p@),
{
    let n = p.unicode_len();
    let mut parts: Vec<String> = Vec::new();
    let mut cur: Vec<char> = Vec::new();
    let mut i: usize = 0;
    while i < n
        invariant
            i <= n,
            n == p@.len(),
            path_segments(p@) =~~= seq_views(parts@) + segs_acc(p@, i as int, cur@),
        decreases n - i,
    {
        let c = p.get_char(i);
        let ghost old_parts = parts@;
        let ghost old_cur = cur@;
        if c == '/' {
            if cur.len() > 0 {
                let s = crate::text::chars_to_string(&cur);
                parts.push(s);
                cur = Vec::new();
                proof {
                    assert(seq_views(parts@) =~~= seq_views(old_parts).push(old_cur));
                    assert(segs_acc(p@, i as int, old_cur) =~~= seq![old_cur] + segs_acc(
                        p@,
                        i + 1,
                        Seq::empty(),
                    ));
                    assert(seq_views(old_parts) + (seq![old_cur] + segs_acc(
                        p@,
                        i + 1,
                        Seq::empty(),
                    )) =~~= seq_views(old_parts).push(old_cur) + segs_acc(p@, i + 1, Seq::empty()));
                }
            } else {
                proof {
                    assert(cur@ =~= Seq::<char>::empty());
                }
            }
        } else {
            cur.push(c);
            proof {
                assert(cur@ =~= old_cur.push(p@[i as int]));
            }
        }
        proof {
            assert(path_segments(p@) =~~= seq_views(parts@) + segs_acc(p@, i + 1, cur@));
        }
        i = i + 1;
    }
    if cur.len() > 0 {
        let s = crate::text::chars_to_string(&cur);
        parts.push(s);
    }
    proof {
        assert(seq_views(parts@) =~~= path_segments(p@));
    }
    parts
}

/// The parent directory of a path, or `None` for the root.
pub fn parent_dir(path: &str) -> (r: Option<String>)
    ensures
        match r {
            Some(s) => parent_dir_spec(path@) == Some(s@),
            None => parent_dir_spec(path@) is None,
        },
{
    let normalized = normalize_dir_path(path);
    if normalized.as_str().unicode_len() == 1 && normalized.as_str().get_char(0) == '/' {
        assert(normalized@ =~= seq!['/']);
        return None;
    }
    assert(!(normalize_dir_spec(path@) =~= seq!['/']));
    let mut parts = split_segments(normalized.as_str());
    let popped = parts.pop();
    proof {
        let ps = path_segments(normalized@);
        if ps.len() > 0 {
            assert(seq_views(parts@) =~~= ps.drop_last());
        } else {
            assert(seq_views(parts@) =~~= ps);
        }
    }
    let mut out = String::new();
    push_slash(&mut out);
    let mut k: usize = 0;
    while k < parts.len()
        invariant
            k <= parts@.len(),
            out@ =~= seq!['/'] + join_slash(seq_views(parts@).subrange(0, k as int)),
        decreases parts@.len() - k,
    {
        if k > 0 {
            push_slash(&mut out);
        }
        out.append(parts[k].as_str());
        proof {
            let vs = seq_views(parts@);
            assert(vs.subrange(0, k + 1).drop_last() =~~= vs.subrange(0, k as int));
            assert(vs.subrange(0, k + 1).last() == vs[k as int]);
            if k == 0 {
                assert(join_slash(vs.subrange(0, 1)) =~= vs[0]);
            }
            assert(out@ =~= seq!['/'] + join_slash(vs.subrange(0, k + 1)));
        }
        k = k + 1;
    }
    proof {
        assert(seq_views(parts@).subrange(0, parts@.len() as int) =~~= seq_views(parts@));
    }
    Some(out)
}

fn push_slash(s: &mut String)
    ensures
        final(s)@ == old(s)@.push('/'),
{
    crate::text::push_char(s, '/');
}

} // verus!
