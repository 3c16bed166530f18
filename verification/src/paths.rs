//! Mapping a request path onto a filesystem target under the base
//! directory.
//!
//! A request path is split on `'/'`; the first piece (empty for the
//! usual `/...`-shaped paths) is discarded and every remaining
//! segment is appended to the base, each preceded by a `'/'`, with no
//! filtering of `..` or empty segments. Re-joining those segments
//! reconstitutes exactly the suffix of the request path from its
//! first `'/'` on, so the target is specified directly as
//! `base + suffix`.

use vstd::prelude::*;
use vstd::string::StrSliceExecFns;
use vstd::string::StringExecFns;

verus! {

/// Index of the first `'/'` in `p`, or `p.len()` when `p` has none.
pub open spec fn first_slash(p: Seq<char>) -> int
    decreases p.len(),
{
    if p.len() == 0 {
        0
    } else if p[0] == '/' {
        0
    } else {
        1 + first_slash(p.skip(1))
    }
}

/// `first_slash` is the unique position with no `'/'` before it that
/// is either the end of the path or a `'/'` itself.
pub proof fn lemma_first_slash_at(p: Seq<char>, i: int)
    requires
        0 <= i <= p.len(),
        forall|j: int| 0 <= j < i ==> p[j] != '/',
        i == p.len() || p[i] == '/',
    ensures
        first_slash(p) == i,
    decreases i,
{
    if i == 0 {
    } else {
        assert(p[0] != '/');
        assert forall|j: int| 0 <= j < i - 1 implies p.skip(1)[j] != '/' by {
            assert(p.skip(1)[j] == p[j + 1]);
        }
        if i < p.len() {
            assert(p.skip(1)[i - 1] == p[i]);
        }
        lemma_first_slash_at(p.skip(1), i - 1);
    }
}

/// `first_slash` lies between 0 and the path's length.
pub proof fn lemma_first_slash_bounds(p: Seq<char>)
    ensures
        0 <= first_slash(p) <= p.len(),
    decreases p.len(),
{
    if p.len() == 0 {
    } else if p[0] == '/' {
    } else {
        lemma_first_slash_bounds(p.skip(1));
    }
}

/// When `first_slash` is not the end of the path, it is a `'/'`.
pub proof fn lemma_first_slash_hit(p: Seq<char>)
    requires
        first_slash(p) < p.len(),
    ensures
        p[first_slash(p)] == '/',
    decreases p.len(),
{
    if p.len() == 0 {
    } else if p[0] == '/' {
    } else {
        lemma_first_slash_bounds(p.skip(1));
        lemma_first_slash_hit(p.skip(1));
    }
}

/// `p` split on `'/'`: the pieces between the slashes, in order,
/// empty pieces included.
pub open spec fn split_slash(p: Seq<char>) -> Seq<Seq<char>>
    decreases p.len(),
    via split_slash_decreases
{
    if first_slash(p) == p.len() {
        seq![p]
    } else {
        seq![p.take(first_slash(p))] + split_slash(p.skip(first_slash(p) + 1))
    }
}

#[via_fn]
proof fn split_slash_decreases(p: Seq<char>) {
    lemma_first_slash_bounds(p);
}

/// The base with each segment appended in order, a `'/'` put before
/// each one.
pub open spec fn joined(base: Seq<char>, segments: Seq<Seq<char>>) -> Seq<char>
    decreases segments.len(),
{
    if segments.len() == 0 {
        base
    } else {
        joined(base + seq!['/'] + segments[0], segments.skip(1))
    }
}

/// Splitting a path on `'/'` and re-appending every piece behind a
/// `'/'` reconstitutes the path, behind one leading `'/'`.
proof fn lemma_joined_split(b: Seq<char>, q: Seq<char>)
    ensures
        joined(b, split_slash(q)) == b + seq!['/'] + q,
    decreases q.len(),
{
    lemma_first_slash_bounds(q);
    let k = first_slash(q);
    if k == q.len() {
        assert(seq![q][0] == q);
        assert(seq![q].skip(1) =~= Seq::<Seq<char>>::empty());
        assert(joined(b + seq!['/'] + q, Seq::<Seq<char>>::empty()) == b + seq!['/'] + q);
        assert(joined(b, split_slash(q)) == joined(b + seq!['/'] + q, seq![q].skip(1)));
    } else {
        lemma_first_slash_hit(q);
        let rest = q.skip(k + 1);
        assert((seq![q.take(k)] + split_slash(rest))[0] == q.take(k));
        assert((seq![q.take(k)] + split_slash(rest)).skip(1) =~= split_slash(rest));
        assert(joined(b, split_slash(q)) == joined(b + seq!['/'] + q.take(k), split_slash(rest)));
        lemma_joined_split(b + seq!['/'] + q.take(k), rest);
        assert(q =~= q.take(k) + seq!['/'] + rest);
        assert((b + seq!['/'] + q.take(k)) + seq!['/'] + rest =~= b + seq!['/'] + (q.take(k)
            + seq!['/'] + rest));
    }
}

/// The target under `base` for request path `p`: the base followed by
/// everything in `p` from its first `'/'` on.
pub open spec fn spec_resolved(base: Seq<char>, p: Seq<char>) -> Seq<char> {
    base + p.skip(first_slash(p))
}

/// The resolved target is exactly what splitting the request path on
/// `'/'`, discarding the first piece, and appending each remaining
/// segment onto the base behind a `'/'` produces.
pub proof fn lemma_resolved_is_split_join(base: Seq<char>, p: Seq<char>)
    ensures
        joined(base, split_slash(p).skip(1)) == spec_resolved(base, p),
{
    lemma_first_slash_bounds(p);
    let k = first_slash(p);
    if k == p.len() {
        assert(seq![p].skip(1) =~= Seq::<Seq<char>>::empty());
        assert(p.skip(k) =~= Seq::<char>::empty());
        assert(base + Seq::<char>::empty() =~= base);
    } else {
        lemma_first_slash_hit(p);
        let rest = p.skip(k + 1);
        assert((seq![p.take(k)] + split_slash(rest)).skip(1) =~= split_slash(rest));
        lemma_joined_split(base, rest);
        assert(p.skip(k) =~= seq!['/'] + rest);
        assert(base + seq!['/'] + rest =~= base + (seq!['/'] + rest));
    }
}

/// A request path that begins with `'/'` resolves to the base with the
/// whole path appended.
pub proof fn lemma_resolved_rooted(base: Seq<char>, p: Seq<char>)
    requires
        p.len() > 0,
        p[0] == '/',
    ensures
        spec_resolved(base, p) == base + p,
{
    assert(first_slash(p) == 0);
    assert(p.skip(0) =~= p);
}

/// Joins the request path onto the base directory, segment by segment
/// in effect: everything from the request path's first `'/'` on is
/// appended to the base.
pub fn resolve_target(base: &str, request_path: &str) -> (r: String)
    ensures
        r@ == spec_resolved(base@, request_path@),
{
    let n = request_path.unicode_len();
    let mut i: usize = 0;
    while i < n && request_path.get_char(i) != '/'
        invariant
            0 <= i <= n,
            n == request_path@.len(),
            forall|j: int| 0 <= j < i ==> request_path@[j] != '/',
        decreases n - i,
    {
        i = i + 1;
    }
    proof {
        lemma_first_slash_at(request_path@, i as int);
        assert(request_path@.skip(i as int) =~= request_path@.subrange(
            i as int,
            request_path@.len() as int,
        ));
    }
    let suffix = request_path.substring_char(i, n);
    let mut out = String::from_str(base);
    out.append(suffix);
    out
}

} // verus!
