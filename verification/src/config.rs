//! Live configuration bundles.
//!
//! A bundle is a merged view over an ordered list of configuration names; the
//! entry under each name is a JSON map of strings, and later names override
//! earlier ones key by key. A per-name watcher feeds changes in through
//! [`ConfigBundle::apply_entry`], which recomputes the merged map and reports
//! whether it changed — equal maps produce no emission.

use vstd::prelude::*;

use crate::json::{json_decode, json_decoded, jval_strmap, strmap_fold};
use crate::kvlist::{kv_insert, kv_submap, kvl_map, kvl_unique};
use crate::store::{EntryOp, MemStore};

verus! {

/// The merged map over partial maps in name order: a key's value comes from
/// the last partial that binds it.
pub open spec fn merge_fold(partials: Seq<Seq<(Seq<char>, Seq<char>)>>) -> Map<
    Seq<char>,
    Seq<char>,
>
    decreases partials.len(),
{
    if partials.len() == 0 {
        Map::empty()
    } else {
        merge_fold(partials.drop_last()).union_prefer_right(kvl_map(partials.last()))
    }
}

/// Merges partial maps, later ones overriding earlier ones.
pub fn merge_partials(partials: &Vec<Vec<(String, String)>>) -> (r: Vec<(String, String)>)
    requires
        forall|i: int|
            0 <= i < partials.deep_view().len() ==> kvl_unique(#[trigger] partials.deep_view()[i]),
    ensures
        kvl_unique(r.deep_view()),
        kvl_map(r.deep_view()) == merge_fold(partials.deep_view()),
{
    let ghost px = partials.deep_view();
    let mut acc: Vec<(String, String)> = Vec::new();
    let mut i: usize = 0;
    proof {
        assert(acc.deep_view() =~= Seq::<(Seq<char>, Seq<char>)>::empty());
        assert(px.take(0) =~= Seq::<Seq<(Seq<char>, Seq<char>)>>::empty());
    }
    while i < partials.len()
        invariant
            i <= partials.len(),
            px == partials.deep_view(),
            px.len() == partials.len(),
            forall|k: int| 0 <= k < px.len() ==> kvl_unique(#[trigger] px[k]),
            kvl_unique(acc.deep_view()),
            kvl_map(acc.deep_view()) == merge_fold(px.take(i as int)),
        decreases partials.len() - i,
    {
        let part = &partials[i];
        let ghost partx = px[i as int];
        let mut j: usize = 0;
        proof {
            assert(partx.take(0) =~= Seq::<(Seq<char>, Seq<char>)>::empty());
            assert(merge_fold(px.take(i as int)).union_prefer_right(
                kvl_map(partx.take(0)),
            ) =~= merge_fold(px.take(i as int)));
        }
        while j < part.len()
            invariant
                j <= part.len(),
                px == partials.deep_view(),
                px.len() == partials.len(),
                i < px.len(),
                partx == px[i as int],
                partx == partials.deep_view()[i as int],
                partx.len() == partials@[i as int].len(),
                part == partials@[i as int],
                kvl_unique(acc.deep_view()),
                kvl_map(acc.deep_view()) == merge_fold(px.take(i as int)).union_prefer_right(
                    kvl_map(partx.take(j as int)),
                ),
            decreases part.len() - j,
        {
            proof {
                assert(partx.take(j as int + 1).drop_last() =~= partx.take(j as int));
                assert(partx.take(j as int + 1).last() == partx[j as int]);
                assert(partx[j as int] == (part@[j as int].0@, part@[j as int].1@));
            }
            let ghost before = kvl_map(acc.deep_view());
            kv_insert(&mut acc, part[j].0.clone(), part[j].1.clone());
            proof {
                assert(kvl_map(partx.take(j as int + 1)) == kvl_map(partx.take(j as int)).insert(
                    partx[j as int].0,
                    partx[j as int].1,
                ));
                assert(merge_fold(px.take(i as int)).union_prefer_right(
                    kvl_map(partx.take(j as int + 1)),
                ) =~= before.insert(partx[j as int].0, partx[j as int].1));
            }
            j = j + 1;
        }
        proof {
            assert(partx.take(partx.len() as int) =~= partx);
            assert(px.take(i as int + 1).drop_last() =~= px.take(i as int));
            assert(px.take(i as int + 1).last() == partx);
        }
        i = i + 1;
    }
    proof {
        assert(px.take(px.len() as int) =~= px);
    }
    acc
}

/// Decides whether two maps held as association lists are equal as maps.
pub fn kv_map_eq(a: &Vec<(String, String)>, b: &Vec<(String, String)>) -> (r: bool)
    requires
        kvl_unique(a.deep_view()),
        kvl_unique(b.deep_view()),
    ensures
        r == (kvl_map(a.deep_view()) == kvl_map(b.deep_view())),
{
    let forward = kv_submap(a, b);
    let backward = kv_submap(b, a);
    if forward && backward {
        proof {
            assert(kvl_map(a.deep_view()).dom() =~= kvl_map(b.deep_view()).dom());
            assert(kvl_map(a.deep_view()) =~= kvl_map(b.deep_view()));
        }
        true
    } else {
        proof {
            if kvl_map(a.deep_view()) == kvl_map(b.deep_view()) {
                assert(kvl_map(a.deep_view()).submap_of(kvl_map(b.deep_view())));
                assert(kvl_map(b.deep_view()).submap_of(kvl_map(a.deep_view())));
            }
        }
        false
    }
}

/// Index of the first occurrence of a name, or the length where it does not
/// occur.
pub open spec fn first_name_at(names: Seq<Seq<char>>, n: Seq<char>) -> int
    decreases names.len(),
{
    if names.len() == 0 {
        0
    } else if names[0] == n {
        0
    } else {
        1 + first_name_at(names.skip(1), n)
    }
}

/// The first occurrence is pinned by what stands before it.
pub proof fn lemma_first_name_at(names: Seq<Seq<char>>, n: Seq<char>, k: int)
    requires
        0 <= k <= names.len(),
        forall|j: int| 0 <= j < k ==> names[j] != n,
        k < names.len() ==> names[k] == n,
    ensures
        first_name_at(names, n) == k,
    decreases names.len(),
{
    if names.len() > 0 && names[0] != n {
        assert(k > 0);
        assert(forall|j: int| 0 <= j < k - 1 ==> names.skip(1)[j] != n);
        assert(k - 1 < names.skip(1).len() ==> names.skip(1)[k - 1] == n);
        lemma_first_name_at(names.skip(1), n, k - 1);
    }
}

/// A live merged view over an ordered list of configuration names.
pub struct ConfigBundle {
    pub names: Vec<String>,
    pub partials: Vec<Vec<(String, String)>>,
    pub merged: Vec<(String, String)>,
}

impl ConfigBundle {
    /// One partial per name, each a map, and the merged list is their merge.
    pub open spec fn wf(&self) -> bool {
        &&& self.partials.deep_view().len() == self.names.deep_view().len()
        &&& forall|i: int|
            0 <= i < self.partials.deep_view().len() ==> kvl_unique(
                #[trigger] self.partials.deep_view()[i],
            )
        &&& kvl_unique(self.merged.deep_view())
        &&& kvl_map(self.merged.deep_view()) == merge_fold(self.partials.deep_view())
    }

    /// The merged map consumers observe.
    pub open spec fn merged_map(&self) -> Map<Seq<char>, Seq<char>> {
        kvl_map(self.merged.deep_view())
    }

    /// Builds a bundle over the given names and their current partial maps.
    pub fn new(names: Vec<String>, partials: Vec<Vec<(String, String)>>) -> (r: ConfigBundle)
        requires
            partials.deep_view().len() == names.deep_view().len(),
            forall|i: int|
                0 <= i < partials.deep_view().len() ==> kvl_unique(
                    #[trigger] partials.deep_view()[i],
                ),
        ensures
            r.wf(),
            r.names == names,
            r.partials == partials,
            r.merged_map() == merge_fold(partials.deep_view()),
    {
        let merged = merge_partials(&partials);
        ConfigBundle { names, partials, merged }
    }

    /// Applies one watched change to the named entry and reports whether the
    /// merged map changed: an update is emitted exactly where the maps differ,
    /// so writing byte-equal configuration twice emits once. A name this
    /// bundle does not watch changes nothing; a put whose bytes do not decode
    /// to a string map is discarded with its message. A delete or purge zeroes
    /// the name's partial.
    pub fn apply_entry(&mut self, name: &String, op: EntryOp, value: &Vec<u8>) -> (r: Result<
        bool,
        String,
    >)
        requires
            old(self).wf(),
        ensures
            final(self).wf(),
            final(self).names == old(self).names,
            ({
                let names = old(self).names.deep_view();
                let i = first_name_at(names, name@);
                if i == names.len() {
                    r == Result::<bool, String>::Ok(false) && *final(self) == *old(self)
                } else {
                    let target = match op {
                        EntryOp::Put => match json_decoded(value@) {
                            Some(j) => if j is Obj {
                                strmap_fold(j->Obj_0)
                            } else {
                                None
                            },
                            None => None,
                        },
                        _ => Some(Map::<Seq<char>, Seq<char>>::empty()),
                    };
                    match target {
                        None => r is Err && *final(self) == *old(self),
                        Some(m) => {
                            &&& r is Ok
                            &&& kvl_map(final(self).partials.deep_view()[i]) == m
                            &&& forall|k: int|
                                0 <= k < names.len() && k != i
                                    ==> final(self).partials.deep_view()[k] == #[trigger] old(
                                    self,
                                ).partials.deep_view()[k]
                            &&& final(self).merged_map() == merge_fold(
                                final(self).partials.deep_view(),
                            )
                            &&& r->Ok_0 == (final(self).merged_map() != old(self).merged_map())
                        },
                    }
                }
            }),
    {
        let ghost names = self.names.deep_view();
        let mut idx: usize = 0;
        let mut found = false;
        while idx < self.names.len() && !found
            invariant
                idx <= self.names.len(),
                names == self.names.deep_view(),
                names.len() == self.names.len(),
                *self == *old(self),
                old(self).wf(),
                self.partials.deep_view().len() == names.len(),
                forall|j: int| 0 <= j < idx ==> names[j] != name@,
                found ==> idx < names.len() && names[idx as int] == name@,
            decreases self.names.len() - idx + (if found { 0int } else { 1int }),
        {
            if self.names[idx] == *name {
                found = true;
            } else {
                idx = idx + 1;
            }
        }
        if !found {
            proof {
                lemma_first_name_at(names, name@, names.len() as int);
            }
            return Ok(false);
        }
        proof {
            lemma_first_name_at(names, name@, idx as int);
        }
        let new_partial: Vec<(String, String)> = match op {
            EntryOp::Put => {
                let jv = match json_decode(value) {
                    Ok(jv) => jv,
                    Err(msg) => {
                        return Err(msg);
                    },
                };
                match jval_strmap(&jv) {
                    Some(m) => m,
                    None => {
                        return Err(
                            crate::json::jstr("configuration must be a JSON map of strings"),
                        );
                    },
                }
            },
            _ => Vec::new(),
        };
        proof {
            assert(new_partial.deep_view().len() == new_partial@.len());
        }
        let ghost oldp = self.partials.deep_view();
        let ghost newpart = new_partial.deep_view();
        self.partials[idx] = new_partial;
        proof {
            assert(self.partials.deep_view() =~= oldp.update(idx as int, newpart));
        }
        let recomputed = merge_partials(&self.partials);
        let changed = !kv_map_eq(&recomputed, &self.merged);
        if changed {
            self.merged = recomputed;
        }
        Ok(changed)
    }
}

/// Builds live configuration bundles over a config store. The bundle resolves
/// every name when it is generated; a per-name watcher keeps it fresh.
pub struct BundleGenerator {}

impl BundleGenerator {
    /// A generator over the config bucket.
    pub fn new() -> (r: BundleGenerator) {
        BundleGenerator {  }
    }

    /// Resolves every name against the store and builds the live bundle. A
    /// name with no entry contributes nothing; an entry that does not decode
    /// to a JSON map of strings fails the generation synchronously, and
    /// generation succeeds exactly where no entry is malformed.
    pub fn generate(&self, names: Vec<String>, store: &MemStore) -> (r: Result<
        ConfigBundle,
        String,
    >)
        requires
            store.wf(),
        ensures
            r is Ok <==> (forall|i: int|
                0 <= i < names.deep_view().len() ==> stored_partial_ok(
                    store.map(),
                    #[trigger] names.deep_view()[i],
                )),
            match r {
                Ok(b) => {
                    &&& b.wf()
                    &&& b.names == names
                    &&& b.partials.deep_view().len() == names.deep_view().len()
                    &&& forall|i: int|
                        0 <= i < names.deep_view().len() ==> kvl_map(
                            #[trigger] b.partials.deep_view()[i],
                        ) == stored_partial_map(store.map(), names.deep_view()[i])
                    &&& b.merged_map() == merge_fold(b.partials.deep_view())
                },
                Err(_) => true,
            },
    {
        let ghost nx = names.deep_view();
        let mut partials: Vec<Vec<(String, String)>> = Vec::new();
        let mut i: usize = 0;
        proof {
            assert(partials.deep_view() =~= Seq::<Seq<(Seq<char>, Seq<char>)>>::empty());
        }
        while i < names.len()
            invariant
                i <= names.len(),
                store.wf(),
                nx == names.deep_view(),
                nx.len() == names.len(),
                partials.deep_view().len() == i,
                forall|k: int|
                    0 <= k < partials.deep_view().len() ==> kvl_unique(
                        #[trigger] partials.deep_view()[k],
                    ),
                forall|k: int| 0 <= k < i ==> stored_partial_ok(store.map(), #[trigger] nx[k]),
                forall|k: int|
                    0 <= k < i ==> kvl_map(#[trigger] partials.deep_view()[k])
                        == stored_partial_map(store.map(), nx[k]),
            decreases names.len() - i,
        {
            let part: Vec<(String, String)> = match store.get(&names[i]) {
                Some(bytes) => {
                    let jv = match json_decode(bytes) {
                        Ok(jv) => jv,
                        Err(msg) => {
                            proof {
                                assert(!stored_partial_ok(store.map(), nx[i as int]));
                            }
                            return Err(msg);
                        },
                    };
                    match jval_strmap(&jv) {
                        Some(m) => m,
                        None => {
                            proof {
                                assert(!stored_partial_ok(store.map(), nx[i as int]));
                            }
                            return Err(
                                crate::json::jstr("configuration must be a JSON map of strings"),
                            );
                        },
                    }
                },
                None => Vec::new(),
            };
            proof {
                assert(part.deep_view().len() == part@.len());
                assert(stored_partial_ok(store.map(), nx[i as int]));
                assert(kvl_map(part.deep_view()) == stored_partial_map(store.map(), nx[i as int]));
            }
            let ghost before = partials.deep_view();
            let ghost partx = part.deep_view();
            partials.push(part);
            proof {
                assert(partials.deep_view() =~= before.push(partx));
            }
            i = i + 1;
        }
        Ok(ConfigBundle::new(names, partials))
    }
}

/// Whether the stored entry under a configuration name is usable: absent, or
/// JSON that parses to an object of strings.
pub open spec fn stored_partial_ok(store: Map<Seq<char>, Seq<u8>>, name: Seq<char>) -> bool {
    !store.contains_key(name) || (match json_decoded(store[name]) {
        Some(j) => j is Obj && strmap_fold(j->Obj_0) is Some,
        None => false,
    })
}

/// The partial map a configuration name contributes: empty where the name has
/// no entry, the decoded string map otherwise.
pub open spec fn stored_partial_map(store: Map<Seq<char>, Seq<u8>>, name: Seq<char>) -> Map<
    Seq<char>,
    Seq<char>,
> {
    if !store.contains_key(name) {
        Map::empty()
    } else {
        match json_decoded(store[name]) {
            Some(j) => strmap_fold(j->Obj_0)->0,
            None => Map::empty(),
        }
    }
}

} // verus!
