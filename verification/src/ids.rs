use vstd::prelude::*;

verus! {

/// The position of the first pair of `s` whose id is `id`, or -1 when there is none.
pub open spec fn first_id_index<V>(s: Seq<(i64, V)>, id: i64) -> int
    decreases s.len(),
{
    if s.len() == 0 {
        -1
    } else if s[0].0 == id {
        0
    } else {
        let k = first_id_index(s.drop_first(), id);
        if k < 0 {
            -1
        } else {
            k + 1
        }
    }
}

/// The position of the last pair of `s` whose id is `id`, or -1 when there is none.
pub open spec fn last_id_index<V>(s: Seq<(i64, V)>, id: i64) -> int
    decreases s.len(),
{
    if s.len() == 0 {
        -1
    } else if s.last().0 == id {
        s.len() - 1
    } else {
        last_id_index(s.drop_last(), id)
    }
}

/// The value of the first pair of `s` whose id is `id`.
pub open spec fn lookup<V>(s: Seq<(i64, V)>, id: i64) -> Option<V> {
    let i = first_id_index(s, id);
    if i >= 0 {
        Some(s[i].1)
    } else {
        None
    }
}

/// Some pair of `s` has the id `id`.
pub open spec fn has_id<V>(s: Seq<(i64, V)>, id: i64) -> bool {
    exists|i: int| 0 <= i < s.len() && #[trigger] s[i].0 == id
}

/// The first position of an id is a position of `s` holding that id, or -1 when no pair has it.
pub broadcast proof fn lemma_first_id_index_bounds<V>(s: Seq<(i64, V)>, id: i64)
    ensures
        -1 <= #[trigger] first_id_index(s, id) < s.len(),
        first_id_index(s, id) >= 0 ==> s[first_id_index(s, id)].0 == id,
        first_id_index(s, id) >= 0 <==> has_id(s, id),
    decreases s.len(),
{
    if s.len() > 0 {
        lemma_first_id_index_bounds(s.drop_first(), id);
        if s[0].0 != id && has_id(s, id) {
            let i = choose|i: int| 0 <= i < s.len() && #[trigger] s[i].0 == id;
            assert(s.drop_first()[i - 1].0 == id);
        }
    }
}

/// The last position of an id is a position of `s` holding that id, or -1 when no pair has it.
pub broadcast proof fn lemma_last_id_index_bounds<V>(s: Seq<(i64, V)>, id: i64)
    ensures
        -1 <= #[trigger] last_id_index(s, id) < s.len(),
        last_id_index(s, id) >= 0 ==> s[last_id_index(s, id)].0 == id,
        last_id_index(s, id) >= 0 <==> has_id(s, id),
    decreases s.len(),
{
    if s.len() > 0 {
        lemma_last_id_index_bounds(s.drop_last(), id);
        if s.last().0 != id && has_id(s, id) {
            let i = choose|i: int| 0 <= i < s.len() && #[trigger] s[i].0 == id;
            assert(s.drop_last()[i].0 == id);
        }
    }
}

proof fn lemma_first_id_index<V>(s: Seq<(i64, V)>, id: i64, i: int)
    requires
        0 <= i <= s.len(),
        forall|j: int| 0 <= j < i ==> #[trigger] s[j].0 != id,
        i < s.len() ==> s[i].0 == id,
    ensures
        first_id_index(s, id) == if i < s.len() {
            i
        } else {
            -1
        },
        first_id_index(s, id) >= 0 <==> has_id(s, id),
        first_id_index(s, id) < s.len(),
        first_id_index(s, id) >= 0 ==> s[first_id_index(s, id)].0 == id,
    decreases s.len(),
{
    if s.len() > 0 && i > 0 {
        assert forall|j: int| 0 <= j < i - 1 implies #[trigger] s.drop_first()[j].0 != id by {
            assert(s.drop_first()[j] == s[j + 1]);
        }
        lemma_first_id_index(s.drop_first(), id, i - 1);
    }
    if i == s.len() {
        assert(!has_id(s, id));
    }
}

proof fn lemma_last_id_index<V>(s: Seq<(i64, V)>, id: i64, i: int)
    requires
        -1 <= i < s.len(),
        forall|j: int| i < j < s.len() ==> #[trigger] s[j].0 != id,
        i >= 0 ==> s[i].0 == id,
    ensures
        last_id_index(s, id) == i,
        last_id_index(s, id) >= 0 <==> has_id(s, id),
    decreases s.len(),
{
    if s.len() > 0 && i < s.len() - 1 {
        lemma_last_id_index(s.drop_last(), id, i);
    }
    if i == -1 {
        assert(!has_id(s, id));
    }
}

/// No pair before the first one with an id has that id.
pub proof fn lemma_before_first_id<V>(s: Seq<(i64, V)>, id: i64)
    ensures
        forall|j: int| 0 <= j < first_id_index(s, id) ==> #[trigger] s[j].0 != id,
    decreases s.len(),
{
    lemma_first_id_index_bounds(s, id);
    if s.len() > 0 && s[0].0 != id {
        lemma_before_first_id(s.drop_first(), id);
        assert forall|j: int| 0 <= j < first_id_index(s, id) implies #[trigger] s[j].0 != id by {
            if j > 0 {
                assert(s[j] == s.drop_first()[j - 1]);
            }
        }
    }
}

/// Writing a new value at the first pair with an id keeps that pair first,
/// and the id then looks up the new value.
pub proof fn lemma_lookup_after_update<V>(s: Seq<(i64, V)>, id: i64, v: V)
    requires
        first_id_index(s, id) >= 0,
    ensures
        ({
            let i = first_id_index(s, id);
            let u = s.update(i, (id, v));
            &&& first_id_index(u, id) == i
            &&& lookup(u, id) == Some(v)
        }),
{
    lemma_first_id_index_bounds(s, id);
    lemma_before_first_id(s, id);
    let i = first_id_index(s, id);
    let u = s.update(i, (id, v));
    assert forall|j: int| 0 <= j < i implies #[trigger] u[j].0 != id by {
        assert(u[j] == s[j]);
    }
    lemma_first_id_index(u, id, i);
}

/// The position in `s` of the first pair with id `id`.
pub fn find_first_id<V>(s: &Vec<(i64, V)>, id: i64) -> (r: Option<usize>)
    ensures
        r is None <==> first_id_index(s@, id) < 0,
        r is None <==> !has_id(s@, id),
        r matches Some(i) ==> i == first_id_index(s@, id) && i < s@.len() && s@[i as int].0 == id,
{
    let mut i: usize = 0;
    while i < s.len()
        invariant
            0 <= i <= s@.len(),
            forall|j: int| 0 <= j < i ==> #[trigger] s@[j].0 != id,
        decreases s@.len() - i,
    {
        if s[i].0 == id {
            proof {
                lemma_first_id_index(s@, id, i as int);
            }
            return Some(i);
        }
        i = i + 1;
    }
    proof {
        lemma_first_id_index(s@, id, i as int);
    }
    None
}

/// The position in `s` of the last pair with id `id`.
pub fn find_last_id<V>(s: &Vec<(i64, V)>, id: i64) -> (r: Option<usize>)
    ensures
        r is None <==> last_id_index(s@, id) < 0,
        r is None <==> !has_id(s@, id),
        r matches Some(i) ==> i == last_id_index(s@, id) && i < s@.len() && s@[i as int].0 == id,
{
    let mut found: Option<usize> = None;
    let mut i: usize = 0;
    while i < s.len()
        invariant
            0 <= i <= s@.len(),
            found matches Some(k) ==> k < i && s@[k as int].0 == id && forall|j: int|
                k < j < i ==> #[trigger] s@[j].0 != id,
            found is None ==> forall|j: int| 0 <= j < i ==> #[trigger] s@[j].0 != id,
        decreases s@.len() - i,
    {
        if s[i].0 == id {
            found = Some(i);
        }
        i = i + 1;
    }
    proof {
        match found {
            Some(k) => lemma_last_id_index(s@, id, k as int),
            None => lemma_last_id_index(s@, id, -1),
        }
    }
    found
}

pub broadcast group group_id_index {
    lemma_first_id_index_bounds,
    lemma_last_id_index_bounds,
}

} // verus!
