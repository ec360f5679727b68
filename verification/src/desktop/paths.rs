//! Comparison of `/`-separated file paths by their components, so that
//! spellings of one path such as `a/b`, `a//b`, `a/./b` and `a/b/` count as
//! the same.

use vstd::prelude::*;

use crate::text::chars_of;

verus! {

/// What two paths must share to be the same path: whether they start at
/// the root, whether they start with a `.` component, and their other
/// components in order.
pub struct PathKey {
    pub rooted: bool,
    pub leading_cur: bool,
    pub parts: Seq<Seq<char>>,
}

/// The pieces of `p` between `/` separators, empty pieces included; a
/// path without separators is one piece.
pub open spec fn segments(p: Seq<char>) -> Seq<Seq<char>>
    decreases p.len(),
{
    if p.len() == 0 {
        seq![Seq::<char>::empty()]
    } else {
        let prev = segments(p.drop_last());
        if p.last() == '/' {
            prev.push(Seq::<char>::empty())
        } else {
            prev.update(prev.len() - 1, prev.last().push(p.last()))
        }
    }
}

/// Whether a piece is a component: neither empty (a repeated, leading or
/// trailing separator) nor `.`.
pub open spec fn is_part(seg: Seq<char>) -> bool {
    seg.len() > 0 && seg != seq!['.']
}

/// The components among `segs`, in order.
pub open spec fn kept(segs: Seq<Seq<char>>) -> Seq<Seq<char>>
    decreases segs.len(),
{
    if segs.len() == 0 {
        segs
    } else {
        let rest = kept(segs.drop_last());
        if is_part(segs.last()) {
            rest.push(segs.last())
        } else {
            rest
        }
    }
}

/// Whether `p` starts at the root directory.
pub open spec fn starts_rooted(p: Seq<char>) -> bool {
    p.len() > 0 && p[0] == '/'
}

/// Whether `p` is relative and starts with the component `.`, which is
/// kept there and dropped elsewhere.
pub open spec fn starts_cur(p: Seq<char>) -> bool {
    &&& !starts_rooted(p)
    &&& p.len() > 0
    &&& p[0] == '.'
    &&& (p.len() == 1 || p[1] == '/')
}

/// The components of `p`: repeated separators and a trailing one are
/// ignored, and `.` is dropped except at the start of a relative path.
pub open spec fn path_key(p: Seq<char>) -> PathKey {
    PathKey { rooted: starts_rooted(p), leading_cur: starts_cur(p), parts: kept(segments(p)) }
}

/// The character sequences of a list of pieces.
pub open spec fn part_views(parts: Seq<Vec<char>>) -> Seq<Seq<char>> {
    parts.map_values(|v: Vec<char>| v@)
}

/// The components of a path, computed.
struct Components {
    rooted: bool,
    leading_cur: bool,
    parts: Vec<Vec<char>>,
}

impl View for Components {
    type V = PathKey;

    closed spec fn view(&self) -> PathKey {
        PathKey { rooted: self.rooted, leading_cur: self.leading_cur, parts: part_views(self.parts@) }
    }
}

/// Decides [`is_part`].
fn is_part_exec(seg: &Vec<char>) -> (r: bool)
    ensures
        r == is_part(seg@),
{
    if seg.len() == 0 {
        return false;
    }
    if seg.len() == 1 && seg[0] == '.' {
        assert(seg@ =~= seq!['.']);
        return false;
    }
    assert(seg@ != seq!['.']) by {
        if seg@.len() == 1 {
            assert(seq!['.'][0] == '.');
        }
    }
    true
}

/// Appending one piece to a list of pieces appends its view.
proof fn lemma_part_views_push(parts: Seq<Vec<char>>, seg: Vec<char>)
    ensures
        part_views(parts.push(seg)) == part_views(parts).push(seg@),
{
    assert(part_views(parts.push(seg)) =~= part_views(parts).push(seg@));
}

/// Splits `p` into its components.
fn components(p: &str) -> (r: Components)
    ensures
        r@ == path_key(p@),
{
    let chars = chars_of(p);
    let n = chars.len();
    let rooted = n > 0 && chars[0] == '/';
    let leading_cur = !rooted && n > 0 && chars[0] == '.' && (n == 1 || chars[1] == '/');
    let mut parts: Vec<Vec<char>> = Vec::new();
    let mut cur: Vec<char> = Vec::new();
    let mut i: usize = 0;
    proof {
        assert(chars@.take(0) =~= Seq::<char>::empty());
        assert(part_views(parts@) =~= Seq::<Seq<char>>::empty());
        assert(segments(chars@.take(0)).drop_last() =~= Seq::<Seq<char>>::empty());
        assert(cur@ =~= Seq::<char>::empty());
    }
    while i < n
        invariant
            n == chars@.len(),
            chars@ == p@,
            i <= n,
            segments(chars@.take(i as int)).len() >= 1,
            cur@ == segments(chars@.take(i as int)).last(),
            part_views(parts@) == kept(segments(chars@.take(i as int)).drop_last()),
        decreases n - i,
    {
        let c = chars[i];
        let ghost s = segments(chars@.take(i as int));
        proof {
            assert(chars@.take(i + 1).drop_last() =~= chars@.take(i as int));
            assert(chars@.take(i + 1).last() == c);
            assert(s.drop_last().push(s.last()) =~= s);
        }
        if c == '/' {
            let seg = cur;
            cur = Vec::new();
            if is_part_exec(&seg) {
                proof {
                    lemma_part_views_push(parts@, seg);
                }
                parts.push(seg);
            }
            proof {
                assert(segments(chars@.take(i + 1)).drop_last() =~= s);
                assert(cur@ =~= Seq::<char>::empty());
            }
        } else {
            cur.push(c);
            proof {
                assert(segments(chars@.take(i + 1)).drop_last() =~= s.drop_last());
            }
        }
        i = i + 1;
    }
    let ghost s = segments(chars@.take(n as int));
    proof {
        assert(chars@.take(n as int) =~= chars@);
        assert(s.drop_last().push(s.last()) =~= s);
    }
    if is_part_exec(&cur) {
        proof {
            lemma_part_views_push(parts@, cur);
        }
        parts.push(cur);
    }
    Components { rooted, leading_cur, parts }
}

/// Exact comparison of two character lists.
fn chars_equal(a: &Vec<char>, b: &Vec<char>) -> (r: bool)
    ensures
        r == (a@ == b@),
{
    if a.len() != b.len() {
        return false;
    }
    let mut i: usize = 0;
    while i < a.len()
        invariant
            a@.len() == b@.len(),
            i <= a@.len(),
            forall|k: int| 0 <= k < i ==> a@[k] == b@[k],
        decreases a@.len() - i,
    {
        if a[i] != b[i] {
            return false;
        }
        i = i + 1;
    }
    assert(a@ =~= b@);
    true
}

/// Whether two lists of pieces hold the same character sequences in the
/// same order.
fn parts_equal(a: &Vec<Vec<char>>, b: &Vec<Vec<char>>) -> (r: bool)
    ensures
        r == (part_views(a@) == part_views(b@)),
{
    if a.len() != b.len() {
        assert(part_views(a@).len() != part_views(b@).len());
        return false;
    }
    let mut i: usize = 0;
    while i < a.len()
        invariant
            a@.len() == b@.len(),
            i <= a@.len(),
            forall|k: int| 0 <= k < i ==> a@[k]@ == b@[k]@,
        decreases a@.len() - i,
    {
        if !chars_equal(&a[i], &b[i]) {
            assert(part_views(a@)[i as int] != part_views(b@)[i as int]);
            return false;
        }
        i = i + 1;
    }
    assert(part_views(a@) =~= part_views(b@));
    true
}

/// Whether `a` and `b` name the same path: they agree on starting at the
/// root, on a leading `.` component, and on their other components.
pub fn same_path(a: &str, b: &str) -> (r: bool)
    ensures
        r == (path_key(a@) == path_key(b@)),
{
    let ka = components(a);
    let kb = components(b);
    ka.rooted == kb.rooted && ka.leading_cur == kb.leading_cur && parts_equal(&ka.parts, &kb.parts)
}

} // verus!
