//! Resolution of untrusted relative paths below a storage directory.
use vstd::prelude::*;

verus! {

/// The pieces of `s` between `/` separators, empty pieces included:
/// `"a//b/"` gives `a`, ``, `b`, ``.
pub open spec fn split_on_slash(s: Seq<char>) -> Seq<Seq<char>>
    decreases s.len(),
{
    if s.len() == 0 {
        seq![Seq::empty()]
    } else {
        let prev = split_on_slash(s.drop_last());
        if s.last() == '/' {
            prev.push(Seq::empty())
        } else {
            prev.update(prev.len() - 1, prev.last().push(s.last()))
        }
    }
}

/// A piece that names an entry: not empty, not `.` and not `..`.
pub open spec fn is_named(seg: Seq<char>) -> bool {
    seg.len() > 0 && seg != seq!['.'] && seg != seq!['.', '.']
}

/// A named piece that holds no separator either, so that it adds exactly one
/// level below the directory it is joined to.
pub open spec fn is_plain_segment(seg: Seq<char>) -> bool {
    is_named(seg) && !seg.contains('/')
}

/// The named pieces of `segs`, in their order.
pub open spec fn keep_named(segs: Seq<Seq<char>>) -> Seq<Seq<char>>
    decreases segs.len(),
{
    if segs.len() == 0 {
        seq![]
    } else {
        let rest = keep_named(segs.drop_last());
        if is_named(segs.last()) {
            rest.push(segs.last())
        } else {
            rest
        }
    }
}

/// The components of a relative path that survive normalisation: current-directory
/// and parent-directory markers and root anchors (empty pieces) are dropped.
pub open spec fn normal_components(s: Seq<char>) -> Seq<Seq<char>> {
    keep_named(split_on_slash(s))
}

/// The character sequences held by a vector of strings.
pub open spec fn views(v: Seq<String>) -> Seq<Seq<char>> {
    v.map_values(|x: String| x@)
}

/// `rel` appended below `base`, with a `/` between them unless `base` is empty
/// or already ends in one.
pub open spec fn join_relative(base: Seq<char>, rel: Seq<char>) -> Seq<char> {
    if base.len() == 0 || base.last() == '/' {
        base + rel
    } else {
        base + seq!['/'] + rel
    }
}

/// Every segment of `segs` appended below `base`, in order.
pub open spec fn join_all(base: Seq<char>, segs: Seq<Seq<char>>) -> Seq<char>
    decreases segs.len(),
{
    if segs.len() == 0 {
        base
    } else {
        join_relative(join_all(base, segs.drop_last()), segs.last())
    }
}

/// A configured directory taken relative to `root`; an absolute one stands for itself.
pub open spec fn join_dir(root: Seq<char>, dir: Seq<char>) -> Seq<char> {
    if dir.len() > 0 && dir[0] == '/' {
        dir
    } else {
        join_relative(root, dir)
    }
}

/// The location that `rel` resolves to when uploads live in `dir` below `root`.
pub open spec fn upload_location(root: Seq<char>, dir: Seq<char>, rel: Seq<char>) -> Seq<char> {
    join_all(join_dir(root, dir), normal_components(rel))
}

proof fn lemma_split_shape(s: Seq<char>)
    ensures
        split_on_slash(s).len() >= 1,
        forall|k: int| 0 <= k < split_on_slash(s).len() ==> !(#[trigger] split_on_slash(s)[k]).contains('/'),
    decreases s.len(),
{
    if s.len() > 0 {
        lemma_split_shape(s.drop_last());
        let prev = split_on_slash(s.drop_last());
        if s.last() != '/' {
            let p = prev[prev.len() - 1];
            assert(!p.contains('/'));
            let grown = p.push(s.last());
            assert forall|j: int| 0 <= j < grown.len() implies grown[j] != '/' by {
                if j < p.len() {
                    assert(grown[j] == p[j]);
                    if p[j] == '/' {
                        assert(p.contains('/'));
                    }
                }
            }
            assert(!grown.contains('/'));
            let next = prev.update(prev.len() - 1, grown);
            assert(split_on_slash(s) == next);
            assert forall|k: int| 0 <= k < next.len() implies !(#[trigger] next[k]).contains('/') by {
                if k < next.len() - 1 {
                    assert(next[k] == prev[k]);
                }
            }
        } else {
            let next = prev.push(Seq::empty());
            assert forall|k: int| 0 <= k < next.len() implies !(#[trigger] next[k]).contains('/') by {
                if k < next.len() - 1 {
                    assert(next[k] == prev[k]);
                }
            }
        }
    }
}

proof fn lemma_keep_named_plain(segs: Seq<Seq<char>>)
    requires
        forall|k: int| 0 <= k < segs.len() ==> !(#[trigger] segs[k]).contains('/'),
    ensures
        forall|k: int| 0 <= k < keep_named(segs).len() ==> is_plain_segment(#[trigger] keep_named(segs)[k]),
    decreases segs.len(),
{
    if segs.len() > 0 {
        let init = segs.drop_last();
        assert forall|k: int| 0 <= k < init.len() implies !(#[trigger] init[k]).contains('/') by {
            assert(init[k] == segs[k]);
        }
        lemma_keep_named_plain(init);
        let last = segs[segs.len() - 1];
        assert(!last.contains('/'));
        let rest = keep_named(init);
        let r = keep_named(segs);
        assert forall|k: int| 0 <= k < r.len() implies is_plain_segment(#[trigger] r[k]) by {
            if k < rest.len() {
                assert(r[k] == rest[k]);
            }
        }
    }
}

/// Every component that normalisation keeps is a plain segment.
pub proof fn lemma_components_plain(s: Seq<char>)
    ensures
        forall|k: int| 0 <= k < normal_components(s).len() ==> is_plain_segment(#[trigger] normal_components(s)[k]),
{
    lemma_split_shape(s);
    lemma_keep_named_plain(split_on_slash(s));
}

proof fn lemma_join_all_extends(base: Seq<char>, segs: Seq<Seq<char>>)
    requires
        forall|k: int| 0 <= k < segs.len() ==> (#[trigger] segs[k]).len() > 0,
    ensures
        join_all(base, segs).len() >= base.len() + segs.len(),
        join_all(base, segs).subrange(0, base.len() as int) == base,
    decreases segs.len(),
{
    if segs.len() > 0 {
        let init = segs.drop_last();
        assert forall|k: int| 0 <= k < init.len() implies (#[trigger] init[k]).len() > 0 by {
            assert(init[k] == segs[k]);
        }
        lemma_join_all_extends(base, init);
        let prev = join_all(base, init);
        let last = segs[segs.len() - 1];
        assert(last.len() > 0);
        let r = join_all(base, segs);
        assert(r.subrange(0, prev.len() as int) =~= prev);
        assert(r.subrange(0, base.len() as int) =~= prev.subrange(0, base.len() as int));
    }
}

proof fn lemma_join_all_separates(base: Seq<char>, segs: Seq<Seq<char>>)
    requires
        segs.len() > 0,
        forall|k: int| 0 <= k < segs.len() ==> (#[trigger] segs[k]).len() > 0,
    ensures
        join_all(base, segs).len() > base.len(),
        base.len() == 0 || base.last() == '/' || join_all(base, segs)[base.len() as int] == '/',
    decreases segs.len(),
{
    let init = segs.drop_last();
    assert forall|k: int| 0 <= k < init.len() implies (#[trigger] init[k]).len() > 0 by {
        assert(init[k] == segs[k]);
    }
    lemma_join_all_extends(base, segs);
    assert(segs[segs.len() - 1].len() > 0);
    if init.len() > 0 {
        lemma_join_all_separates(base, init);
        lemma_join_all_extends(base, init);
        let prev = join_all(base, init);
        let r = join_all(base, segs);
        assert(r.subrange(0, prev.len() as int) =~= prev);
        assert(r[base.len() as int] == r.subrange(0, prev.len() as int)[base.len() as int]);
    } else {
        assert(init =~= Seq::<Seq<char>>::empty());
    }
}

/// Wherever an untrusted relative path points, resolving it below `root`/`dir`
/// gives that directory followed by one plain segment per kept component, and
/// so, when at least one component is kept, a location strictly below it: the
/// directory's own path, a separator, and more.
pub proof fn lemma_resolution_stays_below(root: Seq<char>, dir: Seq<char>, rel: Seq<char>)
    ensures
        ({
            let base = join_dir(root, dir);
            let segs = normal_components(rel);
            let r = upload_location(root, dir, rel);
            &&& r == join_all(base, segs)
            &&& forall|k: int| 0 <= k < segs.len() ==> is_plain_segment(#[trigger] segs[k])
            &&& r.subrange(0, base.len() as int) == base
            &&& r.len() >= base.len() + segs.len()
            &&& segs.len() > 0 ==> r.len() > base.len()
            &&& segs.len() > 0 ==> (base.len() == 0 || base.last() == '/' || r[base.len() as int] == '/')
        }),
{
    let segs = normal_components(rel);
    lemma_components_plain(rel);
    lemma_join_all_extends(join_dir(root, dir), segs);
    if segs.len() > 0 {
        lemma_join_all_separates(join_dir(root, dir), segs);
    }
}

/// Pushes `path[start..end]` onto `out` when it names an entry.
fn push_if_named(path: &str, start: usize, end: usize, out: &mut Vec<String>)
    requires
        start <= end <= path@.len(),
        forall|j: int| start <= j < end ==> path@[j] != '/',
        forall|k: int| 0 <= k < old(out)@.len() ==> is_plain_segment(#[trigger] old(out)@[k]@),
    ensures
        views(final(out)@) == if is_named(path@.subrange(start as int, end as int)) {
            views(old(out)@).push(path@.subrange(start as int, end as int))
        } else {
            views(old(out)@)
        },
        forall|k: int| 0 <= k < final(out)@.len() ==> is_plain_segment(#[trigger] final(out)@[k]@),
{
    let ghost seg = path@.subrange(start as int, end as int);
    let len: usize = end - start;
    let ghost dot: Seq<char> = seq!['.'];
    let ghost dots: Seq<char> = seq!['.', '.'];
    assert(dot.len() == 1 && dot[0] == '.');
    assert(dots.len() == 2 && dots[0] == '.' && dots[1] == '.');
    let named = if len == 0 {
        false
    } else if len == 1 {
        let c = path.get_char(start);
        assert(seg[0] == c);
        if c == '.' {
            assert(seg =~= dot);
        }
        c != '.'
    } else if len == 2 {
        let c0 = path.get_char(start);
        let c1 = path.get_char(start + 1);
        assert(seg[0] == c0 && seg[1] == c1);
        if c0 == '.' && c1 == '.' {
            assert(seg =~= dots);
        }
        !(c0 == '.' && c1 == '.')
    } else {
        true
    };
    assert(named == is_named(seg));
    if named {
        let piece = String::from_str(path.substring_char(start, end));
        assert(!seg.contains('/')) by {
            if seg.contains('/') {
                let j = choose|j: int| 0 <= j < seg.len() && seg[j] == '/';
                assert(path@[start + j] == '/');
            }
        }
        let ghost before = out@;
        out.push(piece);
        assert(views(out@) =~= views(before).push(seg));
        assert forall|k: int| 0 <= k < out@.len() implies is_plain_segment(#[trigger] out@[k]@) by {
            if k < before.len() {
                assert(out@[k] == before[k]);
            }
        }
    }
}

/// The components of `path` that normalisation keeps, in order: pieces between
/// `/` that are neither empty, `.` nor `..`.
pub fn normal_segments(path: &str) -> (r: Vec<String>)
    ensures
        views(r@) == normal_components(path@),
        forall|k: int| 0 <= k < r@.len() ==> is_plain_segment(#[trigger] r@[k]@),
{
    let n = path.unicode_len();
    let mut out: Vec<String> = Vec::new();
    let mut start: usize = 0;
    let mut i: usize = 0;
    let ghost mut done: Seq<Seq<char>> = seq![];
    assert(views(out@) =~= seq![]);
    assert(path@.take(0) =~= Seq::<char>::empty());
    assert(path@.subrange(0, 0) =~= Seq::<char>::empty());
    while i < n
        invariant
            n == path@.len(),
            start <= i <= n,
            split_on_slash(path@.take(i as int)) == done.push(path@.subrange(start as int, i as int)),
            views(out@) == keep_named(done),
            forall|k: int| 0 <= k < out@.len() ==> is_plain_segment(#[trigger] out@[k]@),
            forall|j: int| start <= j < i ==> path@[j] != '/',
        decreases n - i,
    {
        let c = path.get_char(i);
        let ghost prefix = path@.take(i + 1);
        assert(prefix.drop_last() =~= path@.take(i as int));
        assert(prefix.last() == c);
        if c == '/' {
            let ghost seg = path@.subrange(start as int, i as int);
            push_if_named(path, start, i, &mut out);
            proof {
                assert(keep_named(done.push(seg)) == if is_named(seg) {
                    keep_named(done).push(seg)
                } else {
                    keep_named(done)
                }) by {
                    assert(done.push(seg).drop_last() =~= done);
                }
                done = done.push(seg);
                assert(path@.subrange(i + 1, i + 1) =~= Seq::<char>::empty());
            }
            start = i + 1;
        } else {
            proof {
                let prev = done.push(path@.subrange(start as int, i as int));
                assert(path@.subrange(start as int, i as int).push(c) =~= path@.subrange(start as int, i + 1));
                assert(prev.update(prev.len() - 1, prev.last().push(c)) =~= done.push(
                    path@.subrange(start as int, i + 1),
                ));
            }
        }
        i = i + 1;
    }
    let ghost seg = path@.subrange(start as int, n as int);
    push_if_named(path, start, n, &mut out);
    proof {
        assert(done.push(seg).drop_last() =~= done);
        assert(path@.take(n as int) =~= path@);
    }
    out
}

/// Appends `rel` below the path held in `acc`.
fn append_below(acc: &mut String, rel: &str)
    ensures
        final(acc)@ == join_relative(old(acc)@, rel@),
{
    let len = acc.as_str().unicode_len();
    let needs_separator = len != 0 && acc.as_str().get_char(len - 1) != '/';
    if needs_separator {
        acc.append("/");
        proof {
            reveal_strlit("/");
        }
        assert("/"@ =~= seq!['/']);
    }
    acc.append(rel);
}

/// `dir` taken relative to `root`, unless it is absolute.
pub fn directory_under(root: &str, dir: &str) -> (r: String)
    ensures
        r@ == join_dir(root@, dir@),
{
    if dir.unicode_len() > 0 && dir.get_char(0) == '/' {
        String::from_str(dir)
    } else {
        let mut acc = String::from_str(root);
        append_below(&mut acc, dir);
        acc
    }
}

/// Each of `segs` appended below `base`, in order.
pub fn join_segments(base: &str, segs: &Vec<String>) -> (r: String)
    ensures
        r@ == join_all(base@, views(segs@)),
{
    let mut acc = String::from_str(base);
    let mut i: usize = 0;
    assert(views(segs@).take(0) =~= Seq::<Seq<char>>::empty());
    while i < segs.len()
        invariant
            i <= segs@.len(),
            acc@ == join_all(base@, views(segs@).take(i as int)),
        decreases segs@.len() - i,
    {
        append_below(&mut acc, segs[i].as_str());
        assert(views(segs@).take(i + 1).drop_last() =~= views(segs@).take(i as int));
        i = i + 1;
    }
    assert(views(segs@).take(segs@.len() as int) =~= views(segs@));
    acc
}

} // verus!
