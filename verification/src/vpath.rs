//! Virtual paths: namespace-rooted, slash-separated logical paths,
//! independent of the host's real filesystem layout.
//!
//! A raw path is normalized on construction: empty segments and `.` are
//! dropped, and `..` removes the preceding segment without ever escaping the
//! namespace root. Two syntactically different raw paths that normalize to
//! the same segments therefore construct equal [`VirtualPath`] values, which
//! is what makes the identity hash stable across aliases.

use vstd::prelude::*;

verus! {

/// The views of the segments held in an executable segment stack.
pub open spec fn seg_views(v: Seq<String>) -> Seq<Seq<char>> {
    v.map_values(|s: String| s@)
}

/// One normalization step: folds the raw segment `seg` into the stack of
/// segments resolved so far.
pub open spec fn norm_push(segs: Seq<Seq<char>>, seg: Seq<char>) -> Seq<Seq<char>> {
    if seg.len() == 0 || seg == "."@ {
        segs
    } else if seg == ".."@ {
        if segs.len() == 0 {
            segs
        } else {
            segs.drop_last()
        }
    } else {
        segs.push(seg)
    }
}

/// Normalizes the remaining raw characters `s`, given the segments already
/// resolved and the characters of the segment currently being read.
pub open spec fn norm_rec(s: Seq<char>, segs: Seq<Seq<char>>, cur: Seq<char>) -> Seq<Seq<char>>
    decreases s.len(),
{
    if s.len() == 0 {
        norm_push(segs, cur)
    } else if s[0] == '/' {
        norm_rec(s.skip(1), norm_push(segs, cur), Seq::empty())
    } else {
        norm_rec(s.skip(1), segs, cur.push(s[0]))
    }
}

/// The segments of the normalized form of a raw path.
pub open spec fn normalize(s: Seq<char>) -> Seq<Seq<char>> {
    norm_rec(s, Seq::empty(), Seq::empty())
}

/// The segments joined, each preceded by a `/`.
pub open spec fn joined(segs: Seq<Seq<char>>) -> Seq<char>
    decreases segs.len(),
{
    if segs.len() == 0 {
        Seq::empty()
    } else {
        seq!['/'] + segs.first() + joined(segs.skip(1))
    }
}

/// The canonical rooted text of a segment sequence: the segments joined with
/// `/` under a leading `/`; the empty sequence is the root `/` itself.
pub open spec fn rooted(segs: Seq<Seq<char>>) -> Seq<char> {
    if segs.len() == 0 {
        seq!['/']
    } else {
        joined(segs)
    }
}

/// Joining distributes over appending one segment at the end.
proof fn lemma_joined_snoc(s: Seq<Seq<char>>, x: Seq<char>)
    ensures
        joined(s.push(x)) == joined(s) + seq!['/'] + x,
    decreases s.len(),
{
    if s.len() == 0 {
        assert(s.push(x).skip(1) =~= Seq::<Seq<char>>::empty());
        assert(s.push(x).first() == x);
        assert(joined(s.push(x)) == seq!['/'] + x + joined(Seq::<Seq<char>>::empty()));
        assert(joined(s.push(x)) =~= joined(s) + seq!['/'] + x);
    } else {
        assert(s.push(x).skip(1) =~= s.skip(1).push(x));
        assert(s.push(x).first() == s.first());
        lemma_joined_snoc(s.skip(1), x);
        assert(joined(s.push(x)) == seq!['/'] + s.first() + (joined(s.skip(1)) + seq!['/'] + x));
        assert(joined(s.push(x)) =~= joined(s) + seq!['/'] + x);
    }
}

/// A namespace-rooted path in canonical (normalized) form.
pub struct VirtualPath {
    rooted_text: String,
}

impl View for VirtualPath {
    type V = Seq<char>;

    /// The canonical rooted text of the path.
    closed spec fn view(&self) -> Seq<char> {
        self.rooted_text@
    }
}

impl Clone for VirtualPath {
    fn clone(&self) -> (r: Self)
        ensures
            r == *self,
    {
        VirtualPath { rooted_text: self.rooted_text.clone() }
    }
}

/// Folds one raw segment into the executable segment stack, mirroring
/// [`norm_push`].
fn apply_segment(segs: &mut Vec<String>, seg: String)
    ensures
        seg_views(final(segs)@) == norm_push(seg_views(old(segs)@), seg@),
{
    let n = seg.as_str().unicode_len();
    proof {
        reveal_strlit(".");
        reveal_strlit("..");
    }
    if n == 0 {
        return ;
    }
    if n == 1 && seg.as_str().get_char(0) == '.' {
        proof {
            assert(seg@ =~= "."@);
        }
        return ;
    }
    if n == 2 && seg.as_str().get_char(0) == '.' && seg.as_str().get_char(1) == '.' {
        proof {
            assert(seg@ =~= ".."@);
        }
        if segs.len() > 0 {
            segs.pop();
            proof {
                assert(seg_views(segs@) =~= seg_views(old(segs)@).drop_last());
            }
        }
        return ;
    }
    proof {
        assert(seg@ != "."@);
        assert(seg@ != ".."@);
    }
    segs.push(seg);
    proof {
        assert(seg_views(segs@) =~= seg_views(old(segs)@).push(seg@));
    }
}

/// Splits a raw path on `/` and folds each segment, yielding the normalized
/// segment stack.
fn split_normalize(path: &str) -> (segs: Vec<String>)
    ensures
        seg_views(segs@) == normalize(path@),
{
    let ghost p = path@;
    let n = path.unicode_len();
    let mut segs: Vec<String> = Vec::new();
    let mut seg_start: usize = 0;
    let mut i: usize = 0;
    proof {
        assert(p.skip(0) =~= p);
        assert(p.subrange(0, 0) =~= Seq::<char>::empty());
        assert(seg_views(segs@) =~= Seq::<Seq<char>>::empty());
    }
    while i < n
        invariant
            seg_start <= i <= n,
            n == p.len(),
            p == path@,
            norm_rec(p.skip(i as int), seg_views(segs@), p.subrange(seg_start as int, i as int))
                == normalize(p),
        decreases n - i,
    {
        let ghost segs_pre = seg_views(segs@);
        let ghost cur_pre = p.subrange(seg_start as int, i as int);
        proof {
            assert(p.skip(i as int)[0] == p[i as int]);
            assert(p.skip(i as int).skip(1) =~= p.skip(i as int + 1));
        }
        let c = path.get_char(i);
        if c == '/' {
            let seg = path.substring_char(seg_start, i).to_owned();
            apply_segment(&mut segs, seg);
            seg_start = i + 1;
            proof {
                assert(p.subrange(seg_start as int, i as int + 1) =~= Seq::<char>::empty());
            }
        } else {
            proof {
                assert(p.subrange(seg_start as int, i as int + 1) =~= cur_pre.push(p[i as int]));
            }
        }
        i = i + 1;
    }
    proof {
        assert(p.skip(n as int) =~= Seq::<char>::empty());
    }
    let seg = path.substring_char(seg_start, n).to_owned();
    apply_segment(&mut segs, seg);
    segs
}

/// Joins the normalized segments into the canonical rooted text.
fn join_rooted(segs: &Vec<String>) -> (r: String)
    ensures
        r@ == rooted(seg_views(segs@)),
{
    proof {
        reveal_strlit("/");
    }
    if segs.len() == 0 {
        let r = "/".to_owned();
        proof {
            assert(r@ =~= rooted(seg_views(segs@)));
        }
        return r;
    }
    let ghost views = seg_views(segs@);
    let mut out = String::new();
    let mut j: usize = 0;
    while j < segs.len()
        invariant
            j <= segs.len(),
            views == seg_views(segs@),
            out@ == joined(views.take(j as int)),
        decreases segs.len() - j,
    {
        proof {
            reveal_strlit("/");
            assert("/"@ =~= seq!['/']);
            assert(views[j as int] == segs@[j as int]@);
            assert(views.take(j as int).push(views[j as int]) =~= views.take(j as int + 1));
            lemma_joined_snoc(views.take(j as int), views[j as int]);
        }
        out.append("/");
        out.append(segs[j].as_str());
        proof {
            assert(out@ =~= joined(views.take(j as int + 1)));
        }
        j = j + 1;
    }
    proof {
        assert(views.take(segs@.len() as int) =~= views);
    }
    out
}

impl VirtualPath {
    /// Normalizes a raw slash-separated path into its canonical rooted form.
    pub fn new(path: &str) -> (r: VirtualPath)
        ensures
            r@ == rooted(normalize(path@)),
    {
        let segs = split_normalize(path);
        let rooted_text = join_rooted(&segs);
        VirtualPath { rooted_text }
    }

    /// The canonical rooted text of the path.
    pub fn as_rooted_str(&self) -> (r: &str)
        ensures
            r@ == self@,
    {
        self.rooted_text.as_str()
    }

    /// An owned copy of the canonical rooted text.
    pub fn to_rooted_string(&self) -> (r: String)
        ensures
            r@ == self@,
    {
        self.rooted_text.clone()
    }

    /// Whether two paths are the same canonical path.
    pub fn matches(&self, other: &VirtualPath) -> (r: bool)
        ensures
            r == (self@ == other@),
    {
        self.rooted_text == other.rooted_text
    }
}

} // verus!
