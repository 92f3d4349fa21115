//! Lexical path canonicalisation and segment matching.
//!
//! Access decisions compare paths by their canonical segment form: the path
//! split at every `/`, with empty and `.` segments removed and `..` segments
//! resolved against the segment stack. Canonicalising before comparison is
//! what keeps a request from escaping a granted directory through `..`.

use vstd::prelude::*;

verus! {

/// The one-character segment `.`, naming the current directory.
pub open spec fn seg_dot() -> Seq<char> {
    seq!['.']
}

/// The two-character segment `..`, naming the parent directory.
pub open spec fn seg_dotdot() -> Seq<char> {
    seq!['.', '.']
}

/// The views of a sequence of owned segments.
pub open spec fn seg_views(segs: Seq<String>) -> Seq<Seq<char>> {
    segs.map_values(|s: String| s@)
}

/// Folds one raw segment into a canonical segment stack: empty and `.`
/// segments vanish, `..` removes the innermost segment (the parent of the
/// root is the root itself), and any other segment nests one level deeper.
pub open spec fn norm_push(acc: Seq<Seq<char>>, seg: Seq<char>) -> Seq<Seq<char>> {
    if seg.len() == 0 || seg == seg_dot() {
        acc
    } else if seg == seg_dotdot() {
        if acc.len() == 0 {
            acc
        } else {
            acc.drop_last()
        }
    } else {
        acc.push(seg)
    }
}

/// Folds a whole sequence of raw segments, left to right.
pub open spec fn norm_segs(raw: Seq<Seq<char>>) -> Seq<Seq<char>>
    decreases raw.len(),
{
    if raw.len() == 0 {
        Seq::empty()
    } else {
        norm_push(norm_segs(raw.drop_last()), raw.last())
    }
}

/// A path split at every `/`. The result always holds at least one
/// (possibly empty) segment.
pub open spec fn raw_segs(s: Seq<char>) -> Seq<Seq<char>>
    decreases s.len(),
{
    if s.len() == 0 {
        seq![Seq::<char>::empty()]
    } else if s.last() == '/' {
        raw_segs(s.drop_last()).push(Seq::<char>::empty())
    } else {
        let r = raw_segs(s.drop_last());
        r.drop_last().push(r.last().push(s.last()))
    }
}

/// The canonical form of a path: its segments after resolving empty, `.`
/// and `..` segments lexically.
pub open spec fn canon(s: Seq<char>) -> Seq<Seq<char>> {
    norm_segs(raw_segs(s))
}

/// A path that names its target from the root.
pub open spec fn is_absolute(s: Seq<char>) -> bool {
    s.len() > 0 && s[0] == '/'
}

/// Character-for-character string equality.
pub fn str_eq(a: &str, b: &str) -> (r: bool)
    ensures
        r == (a@ == b@),
{
    let an = a.unicode_len();
    let bn = b.unicode_len();
    if an != bn {
        return false;
    }
    let mut i: usize = 0;
    while i < an
        invariant
            an == a@.len(),
            an == b@.len(),
            i <= an,
            forall|j: int| 0 <= j < i ==> a@[j] == b@[j],
        decreases an - i,
    {
        if a.get_char(i) != b.get_char(i) {
            return false;
        }
        i += 1;
    }
    proof {
        assert(a@ =~= b@);
    }
    true
}

/// Whether `a` is a character-level prefix of `b`.
pub fn str_prefix_of(a: &str, b: &str) -> (r: bool)
    ensures
        r == a@.is_prefix_of(b@),
{
    let an = a.unicode_len();
    let bn = b.unicode_len();
    if an > bn {
        return false;
    }
    let mut i: usize = 0;
    while i < an
        invariant
            an == a@.len(),
            bn == b@.len(),
            an <= bn,
            i <= an,
            forall|j: int| 0 <= j < i ==> a@[j] == b@[j],
        decreases an - i,
    {
        if a.get_char(i) != b.get_char(i) {
            proof {
                assert(b@.subrange(0, an as int)[i as int] == b@[i as int]);
            }
            return false;
        }
        i += 1;
    }
    proof {
        assert(a@ =~= b@.subrange(0, an as int));
    }
    true
}

/// Whether the path names its target from the root.
pub fn absolute(p: &str) -> (r: bool)
    ensures
        r == is_absolute(p@),
{
    p.unicode_len() > 0 && p.get_char(0) == '/'
}

/// Applies one raw segment to an owned canonical segment stack.
fn apply_segment(segs: &mut Vec<String>, seg: &str)
    ensures
        seg_views(final(segs)@) == norm_push(seg_views(old(segs)@), seg@),
{
    proof {
        reveal_strlit(".");
        reveal_strlit("..");
        assert(seg_dot() =~= "."@);
        assert(seg_dotdot() =~= ".."@);
    }
    if seg.unicode_len() == 0 || str_eq(seg, ".") {
        // empty and `.` segments change nothing
    } else if str_eq(seg, "..") {
        if segs.len() > 0 {
            segs.pop();
            proof {
                assert(seg_views(segs@) =~= seg_views(old(segs)@).drop_last());
            }
        }
    } else {
        segs.push(seg.to_owned());
        proof {
            assert(seg_views(segs@) =~= seg_views(old(segs)@).push(seg@));
        }
    }
}

/// The canonical segment form of a path.
pub fn canon_path(p: &str) -> (r: Vec<String>)
    ensures
        seg_views(r@) == canon(p@),
{
    let n = p.unicode_len();
    let mut segs: Vec<String> = Vec::new();
    let mut start: usize = 0;
    let mut i: usize = 0;
    proof {
        assert(p@.subrange(0, 0) =~= Seq::<char>::empty());
        assert(seg_views(Seq::<String>::empty()) =~= Seq::<Seq<char>>::empty());
    }
    while i < n
        invariant
            n == p@.len(),
            start <= i <= n,
            raw_segs(p@.subrange(0, i as int)).len() >= 1,
            seg_views(segs@) == norm_segs(raw_segs(p@.subrange(0, i as int)).drop_last()),
            raw_segs(p@.subrange(0, i as int)).last() == p@.subrange(start as int, i as int),
        decreases n - i,
    {
        let c = p.get_char(i);
        proof {
            let pre = p@.subrange(0, i as int);
            let post = p@.subrange(0, i as int + 1);
            assert(post.drop_last() =~= pre);
            assert(post.last() == p@[i as int]);
        }
        if c == '/' {
            let seg = p.substring_char(start, i);
            apply_segment(&mut segs, seg);
            proof {
                let pre = p@.subrange(0, i as int);
                let post = p@.subrange(0, i as int + 1);
                assert(raw_segs(post) == raw_segs(pre).push(Seq::<char>::empty()));
                assert(raw_segs(post).drop_last() =~= raw_segs(pre));
                assert(p@.subrange(i as int + 1, i as int + 1) =~= Seq::<char>::empty());
            }
            start = i + 1;
        } else {
            proof {
                let pre = p@.subrange(0, i as int);
                let post = p@.subrange(0, i as int + 1);
                let r0 = raw_segs(pre);
                assert(raw_segs(post) == r0.drop_last().push(r0.last().push(p@[i as int])));
                assert(raw_segs(post).drop_last() =~= r0.drop_last());
                assert(p@.subrange(start as int, i as int).push(p@[i as int]) =~= p@.subrange(
                    start as int,
                    i as int + 1,
                ));
            }
        }
        i += 1;
    }
    proof {
        assert(p@.subrange(0, n as int) =~= p@);
    }
    let seg = p.substring_char(start, n);
    apply_segment(&mut segs, seg);
    segs
}

/// Whether the views of `a` form a prefix of the views of `b`.
pub fn segs_prefix_of(a: &Vec<String>, b: &Vec<String>) -> (r: bool)
    ensures
        r == seg_views(a@).is_prefix_of(seg_views(b@)),
{
    if a.len() > b.len() {
        return false;
    }
    let mut i: usize = 0;
    while i < a.len()
        invariant
            i <= a@.len(),
            a@.len() <= b@.len(),
            forall|j: int| 0 <= j < i ==> seg_views(a@)[j] == seg_views(b@)[j],
        decreases a@.len() - i,
    {
        if !str_eq(a[i].as_str(), b[i].as_str()) {
            proof {
                let pre = seg_views(b@).subrange(0, a@.len() as int);
                assert(pre[i as int] == seg_views(b@)[i as int]);
            }
            return false;
        }
        i += 1;
    }
    proof {
        assert(seg_views(a@) =~= seg_views(b@).subrange(0, a@.len() as int));
    }
    true
}

/// Whether the views of `a` and `b` are the same segment sequence.
pub fn segs_eq(a: &Vec<String>, b: &Vec<String>) -> (r: bool)
    ensures
        r == (seg_views(a@) == seg_views(b@)),
{
    if a.len() != b.len() {
        proof {
            assert(seg_views(a@).len() != seg_views(b@).len());
        }
        return false;
    }
    let mut i: usize = 0;
    while i < a.len()
        invariant
            i <= a@.len(),
            a@.len() == b@.len(),
            forall|j: int| 0 <= j < i ==> seg_views(a@)[j] == seg_views(b@)[j],
        decreases a@.len() - i,
    {
        if !str_eq(a[i].as_str(), b[i].as_str()) {
            proof {
                assert(seg_views(a@)[i as int] != seg_views(b@)[i as int]);
            }
            return false;
        }
        i += 1;
    }
    proof {
        assert(seg_views(a@) =~= seg_views(b@));
    }
    true
}

/// Copies a segment vector.
pub fn clone_segments(v: &Vec<String>) -> (r: Vec<String>)
    ensures
        r@ == v@,
{
    let mut out: Vec<String> = Vec::new();
    let mut i: usize = 0;
    while i < v.len()
        invariant
            i <= v@.len(),
            out@ == v@.subrange(0, i as int),
        decreases v@.len() - i,
    {
        out.push(v[i].clone());
        proof {
            assert(out@ =~= v@.subrange(0, i as int + 1));
        }
        i += 1;
    }
    proof {
        assert(v@.subrange(0, v@.len() as int) =~= v@);
    }
    out
}

} // verus!
