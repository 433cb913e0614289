//! First-match lookup over association lists keyed by session id: the shape
//! every per-session store shares, with the lemmas that tie a linear scan to
//! it.

use vstd::prelude::*;

verus! {

/// The index of the first entry whose key is `id`.
pub open spec fn find_key<M>(es: Seq<(Seq<char>, M)>, id: Seq<char>) -> Option<int>
    decreases es.len(),
{
    if es.len() == 0 {
        None
    } else if es[0].0 == id {
        Some(0)
    } else {
        match find_key(es.drop_first(), id) {
            Some(i) => Some(i + 1),
            None => None,
        }
    }
}

/// What a first-match index means: it is in range, it carries the key, and
/// nothing before it does; absence means no entry carries the key.
pub proof fn lemma_find_key<M>(es: Seq<(Seq<char>, M)>, id: Seq<char>)
    ensures
        match find_key(es, id) {
            Some(i) => 0 <= i < es.len() && es[i].0 == id && forall|j: int|
                0 <= j < i ==> (#[trigger] es[j]).0 != id,
            None => forall|j: int| 0 <= j < es.len() ==> (#[trigger] es[j]).0 != id,
        },
    decreases es.len(),
{
    if es.len() > 0 && es[0].0 != id {
        lemma_find_key(es.drop_first(), id);
        assert forall|j: int| 1 <= j < es.len() implies (#[trigger] es[j]).0 == es.drop_first()[j
            - 1].0 by {}
    }
}

/// A first match found by scanning is the first match.
pub proof fn lemma_find_key_at<M>(es: Seq<(Seq<char>, M)>, id: Seq<char>, i: int)
    requires
        0 <= i < es.len(),
        es[i].0 == id,
        forall|j: int| 0 <= j < i ==> (#[trigger] es[j]).0 != id,
    ensures
        find_key(es, id) == Some(i),
    decreases i,
{
    if i > 0 {
        lemma_find_key_at(es.drop_first(), id, i - 1);
    }
}

/// The keys of an association list, in order.
pub open spec fn keys_of<M>(es: Seq<(Seq<char>, M)>) -> Seq<Seq<char>> {
    es.map_values(|e: (Seq<char>, M)| e.0)
}

/// Lookup depends on the keys alone: lists with the same keys find a key at
/// the same position.
pub proof fn lemma_find_key_same<A, B>(
    ea: Seq<(Seq<char>, A)>,
    eb: Seq<(Seq<char>, B)>,
    id: Seq<char>,
)
    requires
        keys_of(ea) == keys_of(eb),
    ensures
        find_key(ea, id) == find_key(eb, id),
    decreases ea.len(),
{
    assert(keys_of(ea).len() == ea.len());
    assert(keys_of(eb).len() == eb.len());
    if ea.len() > 0 {
        assert(ea[0].0 == keys_of(ea)[0]);
        assert(eb[0].0 == keys_of(eb)[0]);
        assert(keys_of(ea.drop_first()) =~= keys_of(ea).drop_first());
        assert(keys_of(eb.drop_first()) =~= keys_of(eb).drop_first());
        lemma_find_key_same(ea.drop_first(), eb.drop_first(), id);
    }
}

/// Keys distribute over appending an entry.
pub proof fn lemma_keys_push<M>(es: Seq<(Seq<char>, M)>, e: (Seq<char>, M))
    ensures
        keys_of(es.push(e)) =~= keys_of(es).push(e.0),
{
}

/// Whether no two entries share a key.
pub open spec fn unique_keys<M>(es: Seq<(Seq<char>, M)>) -> bool {
    forall|i: int, j: int|
        0 <= i < j < es.len() ==> (#[trigger] es[i]).0 != (#[trigger] es[j]).0
}

/// Uniqueness transfers along equal key sequences.
pub proof fn lemma_unique_from_keys<A, B>(ea: Seq<(Seq<char>, A)>, eb: Seq<(Seq<char>, B)>)
    requires
        keys_of(ea) == keys_of(eb),
        unique_keys(ea),
    ensures
        unique_keys(eb),
{
    assert(keys_of(ea).len() == ea.len());
    assert(keys_of(eb).len() == eb.len());
    assert forall|i: int, j: int| 0 <= i < j < eb.len() implies (#[trigger] eb[i]).0 != (
    #[trigger] eb[j]).0 by {
        assert(eb[i].0 == keys_of(eb)[i]);
        assert(eb[j].0 == keys_of(eb)[j]);
        assert(ea[i].0 == keys_of(ea)[i]);
        assert(ea[j].0 == keys_of(ea)[j]);
    }
}

/// Appending an entry with a fresh key keeps keys unique.
pub proof fn lemma_unique_push<M>(es: Seq<(Seq<char>, M)>, e: (Seq<char>, M))
    requires
        unique_keys(es),
        forall|j: int| 0 <= j < es.len() ==> (#[trigger] es[j]).0 != e.0,
    ensures
        unique_keys(es.push(e)),
{
    assert forall|i: int, j: int| 0 <= i < j < es.push(e).len() implies (#[trigger] es.push(
        e,
    )[i]).0 != (#[trigger] es.push(e)[j]).0 by {
        if j < es.len() {
            assert(es.push(e)[i] == es[i]);
            assert(es.push(e)[j] == es[j]);
        } else {
            assert(es.push(e)[i] == es[i]);
            assert(es.push(e)[j] == e);
        }
    }
}

/// Removing an entry keeps keys unique.
pub proof fn lemma_unique_remove<M>(es: Seq<(Seq<char>, M)>, i: int)
    requires
        unique_keys(es),
        0 <= i < es.len(),
    ensures
        unique_keys(es.remove(i)),
{
    let r = es.remove(i);
    assert forall|a: int, b: int| 0 <= a < b < r.len() implies (#[trigger] r[a]).0 != (
    #[trigger] r[b]).0 by {
        let ax = if a < i {
            a
        } else {
            a + 1
        };
        let bx = if b < i {
            b
        } else {
            b + 1
        };
        assert(r[a] == es[ax]);
        assert(r[b] == es[bx]);
    }
}

/// With unique keys, removing the entry that holds a key removes the key.
pub proof fn lemma_remove_key_gone<M>(es: Seq<(Seq<char>, M)>, i: int, id: Seq<char>)
    requires
        unique_keys(es),
        0 <= i < es.len(),
        es[i].0 == id,
    ensures
        find_key(es.remove(i), id) is None,
{
    let r = es.remove(i);
    assert forall|j: int| 0 <= j < r.len() implies (#[trigger] r[j]).0 != id by {
        let jx = if j < i {
            j
        } else {
            j + 1
        };
        assert(r[j] == es[jx]);
    }
    lemma_find_key_none(r, id);
}

/// A scan that found no key proves absence.
pub proof fn lemma_find_key_none<M>(es: Seq<(Seq<char>, M)>, id: Seq<char>)
    requires
        forall|j: int| 0 <= j < es.len() ==> (#[trigger] es[j]).0 != id,
    ensures
        find_key(es, id) is None,
    decreases es.len(),
{
    if es.len() > 0 {
        lemma_find_key_none(es.drop_first(), id);
    }
}

} // verus!
