//! Association lists with string keys, modelled as `Map<Seq<char>, _>`.
//!
//! The host's projections (component specs, claims, labels, registry entries,
//! configuration maps) are all keyed by strings. They are held as vectors of
//! pairs with pairwise-distinct keys; every operation is specified against the
//! mathematical map the list stands for.

use vstd::prelude::*;

verus! {

/// No two entries share a key.
pub open spec fn kvl_unique<Vx>(m: Seq<(Seq<char>, Vx)>) -> bool {
    forall|i: int, j: int| 0 <= i < j < m.len() ==> m[i].0 != m[j].0
}

/// The map an association list stands for. Later entries win, though under
/// [`kvl_unique`] there is nothing to win over.
pub open spec fn kvl_map<Vx>(m: Seq<(Seq<char>, Vx)>) -> Map<Seq<char>, Vx>
    decreases m.len(),
{
    if m.len() == 0 {
        Map::empty()
    } else {
        kvl_map(m.drop_last()).insert(m.last().0, m.last().1)
    }
}

/// A key is in the map exactly when some entry carries it.
pub proof fn lemma_kvl_map_dom<Vx>(m: Seq<(Seq<char>, Vx)>, k: Seq<char>)
    ensures
        kvl_map(m).contains_key(k) <==> exists|i: int| 0 <= i < m.len() && m[i].0 == k,
    decreases m.len(),
{
    if m.len() > 0 {
        lemma_kvl_map_dom(m.drop_last(), k);
        if m.last().0 == k {
            assert(m[m.len() - 1].0 == k);
        } else if kvl_map(m).contains_key(k) {
            let i = choose|i: int| 0 <= i < m.drop_last().len() && m.drop_last()[i].0 == k;
            assert(m[i].0 == k);
        } else if exists|i: int| 0 <= i < m.len() && m[i].0 == k {
            let i = choose|i: int| 0 <= i < m.len() && m[i].0 == k;
            assert(m.drop_last()[i].0 == k);
        }
    }
}

/// Under distinct keys, the entry at any index gives the map's value at its key.
pub proof fn lemma_kvl_map_index<Vx>(m: Seq<(Seq<char>, Vx)>, i: int)
    requires
        kvl_unique(m),
        0 <= i < m.len(),
    ensures
        kvl_map(m).contains_key(m[i].0),
        kvl_map(m)[m[i].0] == m[i].1,
    decreases m.len(),
{
    if i == m.len() - 1 {
        assert(kvl_map(m) == kvl_map(m.drop_last()).insert(m.last().0, m.last().1));
    } else {
        assert(m.drop_last()[i] == m[i]);
        lemma_kvl_map_index(m.drop_last(), i);
        assert(m[i].0 != m[m.len() - 1].0);
    }
}

/// Appending a fresh entry inserts its pair into the map.
pub proof fn lemma_kvl_map_push<Vx>(m: Seq<(Seq<char>, Vx)>, k: Seq<char>, v: Vx)
    ensures
        kvl_map(m.push((k, v))) == kvl_map(m).insert(k, v),
{
    assert(m.push((k, v)).drop_last() =~= m);
}

/// Removing the entry that carries `k` removes `k` from the map.
pub proof fn lemma_kvl_map_remove<Vx>(m: Seq<(Seq<char>, Vx)>, i: int)
    requires
        kvl_unique(m),
        0 <= i < m.len(),
    ensures
        kvl_map(m.remove(i)) == kvl_map(m).remove(m[i].0),
        kvl_unique(m.remove(i)),
    decreases m.len(),
{
    let k = m[i].0;
    if i == m.len() - 1 {
        assert(m.remove(i) =~= m.drop_last());
        lemma_kvl_map_dom(m.drop_last(), k);
        assert(forall|j: int| 0 <= j < m.drop_last().len() ==> m.drop_last()[j].0 != k);
        assert(!kvl_map(m.drop_last()).contains_key(k));
        assert(kvl_map(m).remove(k) =~= kvl_map(m.drop_last()));
    } else {
        let shorter = m.drop_last();
        lemma_kvl_map_remove(shorter, i);
        assert(m.remove(i).drop_last() =~= shorter.remove(i));
        assert(m.remove(i).last() == m.last());
        assert(kvl_map(m.remove(i)) == kvl_map(shorter.remove(i)).insert(
            m.last().0,
            m.last().1,
        ));
        assert(k != m.last().0);
        assert(kvl_map(m).remove(k) =~= kvl_map(shorter).remove(k).insert(m.last().0, m.last().1));
    }
}

/// Looks `k` up in an association list.
pub fn kv_get<'a, V: DeepView>(m: &'a Vec<(String, V)>, k: &String) -> (r: Option<&'a V>)
    requires
        kvl_unique(m.deep_view()),
    ensures
        match r {
            Some(v) => kvl_map(m.deep_view()).contains_key(k@) && kvl_map(m.deep_view())[k@]
                == v.deep_view(),
            None => !kvl_map(m.deep_view()).contains_key(k@),
        },
{
    let ghost dm = m.deep_view();
    let mut i: usize = 0;
    while i < m.len()
        invariant
            i <= m.len(),
            dm == m.deep_view(),
            dm.len() == m.len(),
            kvl_unique(dm),
            forall|j: int| 0 <= j < i ==> dm[j].0 != k@,
        decreases m.len() - i,
    {
        if m[i].0 == *k {
            proof {
                lemma_kvl_map_index(dm, i as int);
            }
            return Some(&m[i].1);
        }
        i = i + 1;
    }
    proof {
        lemma_kvl_map_dom(dm, k@);
    }
    None
}

/// Whether `k` has an entry.
pub fn kv_contains<V: DeepView>(m: &Vec<(String, V)>, k: &String) -> (r: bool)
    requires
        kvl_unique(m.deep_view()),
    ensures
        r == kvl_map(m.deep_view()).contains_key(k@),
{
    kv_get(m, k).is_some()
}

/// Whether every pair of `sub` is bound in `sup`: constraint satisfaction over
/// label maps.
pub fn kv_submap(sub: &Vec<(String, String)>, sup: &Vec<(String, String)>) -> (r: bool)
    requires
        kvl_unique(sub.deep_view()),
        kvl_unique(sup.deep_view()),
    ensures
        r == kvl_map(sub.deep_view()).submap_of(kvl_map(sup.deep_view())),
{
    let ghost dsub = sub.deep_view();
    let ghost dsup = sup.deep_view();
    let mut i: usize = 0;
    while i < sub.len()
        invariant
            i <= sub.len(),
            dsub == sub.deep_view(),
            dsup == sup.deep_view(),
            dsub.len() == sub.len(),
            kvl_unique(dsub),
            kvl_unique(dsup),
            forall|j: int|
                0 <= j < i ==> kvl_map(dsup).contains_key(#[trigger] dsub[j].0) && kvl_map(
                    dsup,
                )[dsub[j].0] == dsub[j].1,
        decreases sub.len() - i,
    {
        let ok = match kv_get(sup, &sub[i].0) {
            Some(v) => *v == sub[i].1,
            None => false,
        };
        if !ok {
            proof {
                lemma_kvl_map_index(dsub, i as int);
            }
            return false;
        }
        i = i + 1;
    }
    proof {
        assert forall|k: Seq<char>|
            #![trigger kvl_map(dsub).dom().contains(k)]
            kvl_map(dsub).dom().contains(k) implies kvl_map(dsup).dom().contains(k) && kvl_map(
            dsup,
        )[k] == kvl_map(dsub)[k] by {
            lemma_kvl_map_dom(dsub, k);
            let j = choose|j: int| 0 <= j < dsub.len() && dsub[j].0 == k;
            lemma_kvl_map_index(dsub, j);
        }
        assert(kvl_map(dsub).submap_of(kvl_map(dsup)));
    }
    true
}

/// An owned copy of a string-to-string association list.
pub fn kv_copy(m: &Vec<(String, String)>) -> (r: Vec<(String, String)>)
    ensures
        r.deep_view() == m.deep_view(),
{
    let mut r: Vec<(String, String)> = Vec::new();
    let mut i: usize = 0;
    while i < m.len()
        invariant
            i <= m.len(),
            m.deep_view().len() == m.len(),
            r.deep_view() =~= m.deep_view().take(i as int),
        decreases m.len() - i,
    {
        let ghost before = r.deep_view();
        r.push((m[i].0.clone(), m[i].1.clone()));
        proof {
            assert(r.deep_view() =~= before.push((m@[i as int].0@, m@[i as int].1@)));
        }
        i = i + 1;
    }
    proof {
        assert(m.deep_view().take(m.deep_view().len() as int) =~= m.deep_view());
    }
    r
}

/// Binds `k` to `v`, replacing any entry that carried `k`.
pub fn kv_insert<V: DeepView>(m: &mut Vec<(String, V)>, k: String, v: V)
    requires
        kvl_unique(old(m).deep_view()),
    ensures
        kvl_unique(final(m).deep_view()),
        kvl_map(final(m).deep_view()) == kvl_map(old(m).deep_view()).insert(k@, v.deep_view()),
{
    kv_remove(m, &k);
    let ghost before = m.deep_view();
    proof {
        lemma_kvl_map_dom(before, k@);
        assert(forall|j: int| 0 <= j < before.len() ==> before[j].0 != k@) by {
            if exists|j: int| 0 <= j < before.len() && before[j].0 == k@ {
                let j = choose|j: int| 0 <= j < before.len() && before[j].0 == k@;
                assert(kvl_map(before).contains_key(k@));
            }
        }
    }
    m.push((k, v));
    proof {
        assert(m.deep_view() =~= before.push((k@, v.deep_view())));
        lemma_kvl_map_push(before, k@, v.deep_view());
        assert(kvl_map(old(m).deep_view()).remove(k@).insert(k@, v.deep_view()) =~= kvl_map(
            old(m).deep_view(),
        ).insert(k@, v.deep_view()));
    }
}

/// Removes the entry that carries `k`, if any; reports whether one was there.
pub fn kv_remove<V: DeepView>(m: &mut Vec<(String, V)>, k: &String) -> (r: bool)
    requires
        kvl_unique(old(m).deep_view()),
    ensures
        kvl_unique(final(m).deep_view()),
        kvl_map(final(m).deep_view()) == kvl_map(old(m).deep_view()).remove(k@),
        r == kvl_map(old(m).deep_view()).contains_key(k@),
{
    let ghost dm = m.deep_view();
    proof {
        assert(dm == old(m).deep_view());
    }
    let mut i: usize = 0;
    while i < m.len()
        invariant
            i <= m.len(),
            dm == m.deep_view(),
            dm == old(m).deep_view(),
            dm.len() == m.len(),
            kvl_unique(dm),
            forall|j: int| 0 <= j < i ==> dm[j].0 != k@,
        decreases m.len() - i,
    {
        if m[i].0 == *k {
            proof {
                assert(dm[i as int] == (m@[i as int].0@, m@[i as int].1.deep_view()));
                assert(dm[i as int].0 == k@);
                lemma_kvl_map_index(dm, i as int);
                lemma_kvl_map_remove(dm, i as int);
            }
            m.remove(i);
            proof {
                assert(m.deep_view() =~= dm.remove(i as int));
            }
            return true;
        }
        i = i + 1;
    }
    proof {
        lemma_kvl_map_dom(dm, k@);
        assert(kvl_map(dm).remove(k@) =~= kvl_map(dm));
    }
    false
}

} // verus!
