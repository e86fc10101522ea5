use vstd::prelude::*;

verus! {

/// `lt` is a strict total order: irreflexive, transitive, and any two distinct values are related.
pub open spec fn strict_total_order<K>(lt: spec_fn(K, K) -> bool) -> bool {
    &&& forall|a: K| !#[trigger] lt(a, a)
    &&& forall|a: K, b: K, c: K| #[trigger] lt(a, b) && #[trigger] lt(b, c) ==> lt(a, c)
    &&& forall|a: K, b: K| a != b ==> #[trigger] lt(a, b) || #[trigger] lt(b, a)
}

/// The keys of `s` never decrease.
pub open spec fn sorted_by_key<A, K>(s: Seq<A>, key: spec_fn(A) -> K, lt: spec_fn(K, K) -> bool) -> bool {
    forall|i: int, j: int| 0 <= i < j < s.len() ==> !lt(key(#[trigger] s[j]), key(#[trigger] s[i]))
}

/// The items of `s` whose key is `k`, in the order of `s`.
pub open spec fn with_key<A, K>(s: Seq<A>, key: spec_fn(A) -> K, k: K) -> Seq<A> {
    s.filter(has_key(key, k))
}

/// Whether an item's key is `k`.
pub open spec fn has_key<A, K>(key: spec_fn(A) -> K, k: K) -> spec_fn(A) -> bool {
    |e: A| key(e) == k
}

/// `out` is the stable sort of `inp` by `key`: its keys never decrease, and
/// for every key it holds the same items in the same order as `inp`.
pub open spec fn is_stable_sort_of<A, K>(
    out: Seq<A>,
    inp: Seq<A>,
    key: spec_fn(A) -> K,
    lt: spec_fn(K, K) -> bool,
) -> bool {
    &&& sorted_by_key(out, key, lt)
    &&& forall|k: K| #[trigger] with_key(out, key, k) == with_key(inp, key, k)
}

proof fn lemma_filter_none<A>(s: Seq<A>, p: spec_fn(A) -> bool)
    requires
        forall|i: int| 0 <= i < s.len() ==> !p(#[trigger] s[i]),
    ensures
        s.filter(p) == Seq::<A>::empty(),
{
    assert(s.all(|x: A| !p(x)));
    s.lemma_all_neg_filter_empty(p);
    assert(s.filter(p) =~= Seq::<A>::empty());
}

/// Inserting `x` at `pos`, after every item whose key is not above `x`'s and
/// before every item whose key is above it, keeps `out` sorted and puts `x`
/// last among the items with its key.
pub proof fn lemma_sorted_insert<A, K>(
    out: Seq<A>,
    pos: int,
    x: A,
    key: spec_fn(A) -> K,
    lt: spec_fn(K, K) -> bool,
)
    requires
        strict_total_order(lt),
        sorted_by_key(out, key, lt),
        0 <= pos <= out.len(),
        forall|j: int| 0 <= j < pos ==> !lt(key(x), key(#[trigger] out[j])),
        pos < out.len() ==> lt(key(x), key(out[pos])),
    ensures
        sorted_by_key(out.insert(pos, x), key, lt),
        forall|k: K|
            #[trigger] with_key(out.insert(pos, x), key, k) == if key(x) == k {
                with_key(out, key, k).push(x)
            } else {
                with_key(out, key, k)
            },
{
    broadcast use vstd::seq_lib::group_seq_properties;

    let r = out.insert(pos, x);
    assert forall|j: int| pos <= j < out.len() implies lt(key(x), key(#[trigger] out[j])) by {
        if j > pos {
            assert(!lt(key(out[j]), key(out[pos])));
            if key(out[j]) != key(out[pos]) {
                assert(lt(key(out[pos]), key(out[j])) || lt(key(out[j]), key(out[pos])));
            }
        }
    }
    assert forall|i: int, j: int| 0 <= i < j < r.len() implies !lt(
        key(#[trigger] r[j]),
        key(#[trigger] r[i]),
    ) by {
        if i < pos && j < pos {
            assert(r[i] == out[i] && r[j] == out[j]);
        } else if i < pos && j == pos {
            assert(r[i] == out[i]);
        } else if i < pos {
            assert(r[i] == out[i] && r[j] == out[j - 1]);
        } else if i == pos {
            assert(r[j] == out[j - 1]);
            if lt(key(out[j - 1]), key(x)) {
                assert(lt(key(x), key(x)));
            }
        } else {
            assert(r[i] == out[i - 1] && r[j] == out[j - 1]);
        }
    }
    let left = out.take(pos);
    let right = out.skip(pos);
    assert(out =~= left + right);
    assert(r =~= left.push(x) + right);
    assert forall|k: K| #[trigger]
        with_key(r, key, k) == if key(x) == k {
            with_key(out, key, k).push(x)
        } else {
            with_key(out, key, k)
        } by {
        let p = has_key(key, k);
        left.lemma_filter_push(x, p);
        assert(r.filter(p) == left.push(x).filter(p) + right.filter(p));
        assert(out.filter(p) == left.filter(p) + right.filter(p));
        if key(x) == k {
            assert forall|j: int| 0 <= j < right.len() implies !p(#[trigger] right[j]) by {
                assert(right[j] == out[pos + j]);
                assert(lt(key(x), key(out[pos + j])));
            }
            lemma_filter_none(right, p);
            assert(right.filter(p) + Seq::<A>::empty() =~= right.filter(p));
            assert(left.filter(p).push(x) + Seq::<A>::empty() =~= left.filter(p).push(x));
            assert(left.filter(p) + Seq::<A>::empty() =~= left.filter(p));
        } else {
            assert(left.push(x).filter(p) == left.filter(p));
        }
    }
}

/// Lexicographic order on strings of characters, comparing characters by code point
/// (the order of `str`'s comparison operators).
pub open spec fn chars_lt(a: Seq<char>, b: Seq<char>) -> bool
    decreases a.len(),
{
    if b.len() == 0 {
        false
    } else if a.len() == 0 {
        true
    } else if a[0] != b[0] {
        (a[0] as int) < (b[0] as int)
    } else {
        chars_lt(a.drop_first(), b.drop_first())
    }
}

pub open spec fn chars_order() -> spec_fn(Seq<char>, Seq<char>) -> bool {
    |a: Seq<char>, b: Seq<char>| chars_lt(a, b)
}

proof fn lemma_chars_lt_irreflexive(a: Seq<char>)
    ensures
        !chars_lt(a, a),
    decreases a.len(),
{
    if a.len() > 0 {
        lemma_chars_lt_irreflexive(a.drop_first());
    }
}

proof fn lemma_chars_lt_transitive(a: Seq<char>, b: Seq<char>, c: Seq<char>)
    requires
        chars_lt(a, b),
        chars_lt(b, c),
    ensures
        chars_lt(a, c),
    decreases a.len(),
{
    if a.len() > 0 && b.len() > 0 && c.len() > 0 {
        if a[0] == b[0] && b[0] == c[0] {
            lemma_chars_lt_transitive(a.drop_first(), b.drop_first(), c.drop_first());
        }
    }
}

proof fn lemma_chars_lt_total(a: Seq<char>, b: Seq<char>)
    requires
        a != b,
    ensures
        chars_lt(a, b) || chars_lt(b, a),
    decreases a.len(),
{
    if a.len() > 0 && b.len() > 0 {
        if a[0] == b[0] {
            if a.drop_first() == b.drop_first() {
                assert(a =~= seq![a[0]] + a.drop_first());
                assert(b =~= seq![b[0]] + b.drop_first());
            }
            lemma_chars_lt_total(a.drop_first(), b.drop_first());
        } else {
            assert((a[0] as int) != (b[0] as int));
        }
    } else if a.len() == 0 && b.len() == 0 {
        assert(a =~= b);
    }
}

/// The lexicographic order on strings of characters is a strict total order.
pub proof fn lemma_chars_order_strict_total()
    ensures
        strict_total_order(chars_order()),
{
    let lt = chars_order();
    assert forall|a: Seq<char>| !#[trigger] lt(a, a) by {
        lemma_chars_lt_irreflexive(a);
    }
    assert forall|a: Seq<char>, b: Seq<char>, c: Seq<char>| #[trigger]
        lt(a, b) && #[trigger] lt(b, c) implies lt(a, c) by {
        lemma_chars_lt_transitive(a, b, c);
    }
    assert forall|a: Seq<char>, b: Seq<char>| a != b implies #[trigger] lt(a, b) || #[trigger] lt(
        b,
        a,
    ) by {
        lemma_chars_lt_total(a, b);
    }
}

/// Whether `a` comes before `b` in the lexicographic order.
pub fn chars_less(a: &Vec<char>, b: &Vec<char>) -> (r: bool)
    ensures
        r == chars_lt(a@, b@),
{
    let mut i: usize = 0;
    assert(a@.skip(0) =~= a@ && b@.skip(0) =~= b@);
    while i < a.len() && i < b.len() && a[i] == b[i]
        invariant
            0 <= i <= a@.len(),
            i <= b@.len(),
            chars_lt(a@, b@) == chars_lt(a@.skip(i as int), b@.skip(i as int)),
        decreases a@.len() - i,
    {
        proof {
            assert(a@.skip(i as int).drop_first() =~= a@.skip(i + 1));
            assert(b@.skip(i as int).drop_first() =~= b@.skip(i + 1));
        }
        i = i + 1;
    }
    if i == b.len() {
        false
    } else if i == a.len() {
        true
    } else {
        a[i] < b[i]
    }
}

} // verus!
