//! The host's live state and the operations the control handlers make on it.
//!
//! A host owns in-memory projections only: component specs and claims mirror
//! the lattice data bucket through the watcher, links and labels are mutated by
//! the control interface directly. Every map carries pairwise-distinct keys.

use vstd::prelude::*;

use crate::kvlist::{kvl_unique, kvl_map};
use crate::types::{
    Claims,
    ComponentSpec,
    Link,
    LinkKey,
    LinkKeyX,
    LinkX,
    ProviderInstance,
    RegistryCredentials,
    link_key_of,
    link_matches,
};

verus! {

/// No two links share the identifying tuple.
pub open spec fn links_wf(s: Seq<LinkX>) -> bool {
    forall|i: int, j: int| 0 <= i < j < s.len() ==> link_key_of(s[i]) != link_key_of(s[j])
}

/// The links left after taking out every link that carries `k`; order is kept.
pub open spec fn links_without(s: Seq<LinkX>, k: LinkKeyX) -> Seq<LinkX>
    decreases s.len(),
{
    if s.len() == 0 {
        s
    } else if link_matches(s.last(), k) {
        links_without(s.drop_last(), k)
    } else {
        links_without(s.drop_last(), k).push(s.last())
    }
}

/// Where nothing matches, taking the key out changes nothing.
pub proof fn lemma_links_without_nomatch(s: Seq<LinkX>, k: LinkKeyX)
    requires
        forall|j: int| 0 <= j < s.len() ==> !link_matches(s[j], k),
    ensures
        links_without(s, k) == s,
    decreases s.len(),
{
    if s.len() > 0 {
        assert(forall|j: int| 0 <= j < s.drop_last().len() ==> s.drop_last()[j] == s[j]);
        lemma_links_without_nomatch(s.drop_last(), k);
        assert(links_without(s, k) =~= s);
    }
}

/// Where exactly the link at `i` matches, taking the key out removes it.
pub proof fn lemma_links_without_one(s: Seq<LinkX>, k: LinkKeyX, i: int)
    requires
        0 <= i < s.len(),
        link_matches(s[i], k),
        forall|j: int| 0 <= j < s.len() && j != i ==> !link_matches(s[j], k),
    ensures
        links_without(s, k) == s.remove(i),
    decreases s.len(),
{
    if i == s.len() - 1 {
        assert(forall|j: int| 0 <= j < s.drop_last().len() ==> s.drop_last()[j] == s[j]);
        lemma_links_without_nomatch(s.drop_last(), k);
        assert(links_without(s, k) =~= s.remove(i));
    } else {
        assert(forall|j: int|
            0 <= j < s.drop_last().len() && j != i ==> s.drop_last()[j] == s[j]
                && !link_matches(s.drop_last()[j], k));
        assert(s.drop_last()[i] == s[i]);
        lemma_links_without_one(s.drop_last(), k, i);
        assert(links_without(s, k) == s.drop_last().remove(i).push(s.last()));
        assert(s.drop_last().remove(i).push(s.last()) =~= s.remove(i));
    }
}

/// Nothing that taking a key out leaves behind carries that key.
pub proof fn lemma_links_without_clean(s: Seq<LinkX>, k: LinkKeyX)
    ensures
        forall|j: int|
            0 <= j < links_without(s, k).len() ==> !link_matches(
                #[trigger] links_without(s, k)[j],
                k,
            ),
    decreases s.len(),
{
    if s.len() > 0 {
        lemma_links_without_clean(s.drop_last(), k);
        let prev = links_without(s.drop_last(), k);
        if !link_matches(s.last(), k) {
            assert(links_without(s, k) == prev.push(s.last()));
            assert(forall|j: int|
                0 <= j < prev.push(s.last()).len() - 1 ==> prev.push(s.last())[j] == prev[j]);
            assert(prev.push(s.last())[prev.len() as int] == s.last());
        }
    }
}

/// Putting a link and then deleting its key leaves exactly the links that
/// deleting the key alone would leave: no link with that key stays in memory.
pub proof fn lemma_link_put_then_del(s: Seq<LinkX>, l: LinkX)
    ensures
        links_without(links_without(s, link_key_of(l)).push(l), link_key_of(l)) == links_without(
            s,
            link_key_of(l),
        ),
        forall|j: int|
            0 <= j < links_without(links_without(s, link_key_of(l)).push(l), link_key_of(l)).len()
                ==> !link_matches(
                #[trigger] links_without(
                    links_without(s, link_key_of(l)).push(l),
                    link_key_of(l),
                )[j],
                link_key_of(l),
            ),
{
    let k = link_key_of(l);
    let w = links_without(s, k);
    lemma_links_without_clean(s, k);
    assert(w.push(l).drop_last() =~= w);
    assert(w.push(l).last() == l);
    assert(links_without(w.push(l), k) == links_without(w, k));
    assert(forall|j: int| 0 <= j < w.len() ==> !link_matches(w[j], k));
    lemma_links_without_nomatch(w, k);
    lemma_links_without_clean(w.push(l), k);
}

/// Whether the exec link carries the exec key.
pub fn link_has_key(l: &Link, k: &LinkKey) -> (r: bool)
    ensures
        r == link_matches(l.deep_view(), k.deep_view()),
{
    l.source_id == k.source_id && l.name == k.name && l.wit_namespace == k.wit_namespace
        && l.wit_package == k.wit_package
}

/// Puts a link: any link with the same key is replaced, and the new link comes
/// last. Reports whether one was replaced.
pub fn links_put(links: &mut Vec<Link>, l: Link) -> (replaced: bool)
    requires
        links_wf(old(links).deep_view()),
    ensures
        links_wf(final(links).deep_view()),
        final(links).deep_view() == links_without(
            old(links).deep_view(),
            link_key_of(l.deep_view()),
        ).push(l.deep_view()),
        replaced == exists|j: int|
            0 <= j < old(links).deep_view().len() && link_matches(
                old(links).deep_view()[j],
                link_key_of(l.deep_view()),
            ),
{
    let key = LinkKey {
        source_id: l.source_id.clone(),
        name: l.name.clone(),
        wit_namespace: l.wit_namespace.clone(),
        wit_package: l.wit_package.clone(),
    };
    proof {
        assert(key.deep_view() == link_key_of(l.deep_view()));
    }
    let replaced = links_del_key(links, &key).is_some();
    let ghost mid = links.deep_view();
    links.push(l);
    proof {
        assert(links.deep_view() =~= mid.push(l.deep_view()));
        assert(forall|j: int|
            0 <= j < mid.len() ==> !link_matches(mid[j], link_key_of(l.deep_view())));
    }
    replaced
}

/// Takes the link with the given key out and hands it back; the state is
/// unchanged where none carries the key.
pub fn links_del_key(links: &mut Vec<Link>, k: &LinkKey) -> (removed: Option<Link>)
    requires
        links_wf(old(links).deep_view()),
    ensures
        links_wf(final(links).deep_view()),
        final(links).deep_view() == links_without(old(links).deep_view(), k.deep_view()),
        forall|j: int|
            0 <= j < final(links).deep_view().len() ==> !link_matches(
                final(links).deep_view()[j],
                k.deep_view(),
            ),
        match removed {
            Some(l) => exists|j: int|
                0 <= j < old(links).deep_view().len() && old(links).deep_view()[j] == l.deep_view()
                    && link_matches(l.deep_view(), k.deep_view()),
            None => forall|j: int|
                0 <= j < old(links).deep_view().len() ==> !link_matches(
                    old(links).deep_view()[j],
                    k.deep_view(),
                ),
        },
{
    let ghost dl = links.deep_view();
    let mut i: usize = 0;
    while i < links.len()
        invariant
            i <= links.len(),
            dl == links.deep_view(),
            dl == old(links).deep_view(),
            dl.len() == links.len(),
            links_wf(dl),
            forall|j: int| 0 <= j < i ==> !link_matches(dl[j], k.deep_view()),
        decreases links.len() - i,
    {
        if link_has_key(&links[i], k) {
            proof {
                assert(dl[i as int] == links@[i as int].deep_view());
                lemma_links_without_one(dl, k.deep_view(), i as int);
                assert(forall|a: int, b: int|
                    0 <= a < b < dl.remove(i as int).len() ==> link_key_of(dl.remove(i as int)[a])
                        != link_key_of(dl.remove(i as int)[b]));
                assert(forall|j: int|
                    0 <= j < dl.remove(i as int).len() ==> !link_matches(
                        dl.remove(i as int)[j],
                        k.deep_view(),
                    ));
            }
            let removed = links.remove(i);
            proof {
                assert(links.deep_view() =~= dl.remove(i as int));
            }
            return Some(removed);
        }
        i = i + 1;
    }
    proof {
        lemma_links_without_nomatch(dl, k.deep_view());
    }
    None
}

/// The host's live state: its identity, its labels, and its projections of
/// components, providers, links, claims and registry credentials.
pub struct HostState {
    pub host_id: String,
    pub lattice: String,
    pub friendly_name: String,
    pub version: String,
    pub labels: Vec<(String, String)>,
    pub components: Vec<(String, ComponentSpec)>,
    pub providers: Vec<(String, ProviderInstance)>,
    pub links: Vec<Link>,
    pub claims_components: Vec<(String, Claims)>,
    pub claims_providers: Vec<(String, Claims)>,
    pub registry_config: Vec<(String, RegistryCredentials)>,
    pub stop_deadline: Option<u64>,
}

impl HostState {
    /// Every map of the state carries pairwise-distinct keys, and so do the
    /// annotations of every stored component spec.
    pub open spec fn wf(&self) -> bool {
        &&& kvl_unique(self.labels.deep_view())
        &&& kvl_unique(self.components.deep_view())
        &&& forall|k: Seq<char>|
            #[trigger] self.components_map().contains_key(k) ==> kvl_unique(
                self.components_map()[k].annotations,
            )
        &&& kvl_unique(self.providers.deep_view())
        &&& kvl_unique(self.claims_components.deep_view())
        &&& kvl_unique(self.claims_providers.deep_view())
        &&& kvl_unique(self.registry_config.deep_view())
        &&& links_wf(self.links.deep_view())
    }

    /// The projected component map.
    pub open spec fn components_map(&self) -> Map<Seq<char>, crate::types::ComponentSpecX> {
        kvl_map(self.components.deep_view())
    }

    /// The label map.
    pub open spec fn labels_map(&self) -> Map<Seq<char>, Seq<char>> {
        kvl_map(self.labels.deep_view())
    }

    /// The provider map.
    pub open spec fn providers_map(&self) -> Map<Seq<char>, crate::types::ProviderInstanceX> {
        kvl_map(self.providers.deep_view())
    }

    /// A fresh host with the given identity and no projections.
    pub fn new(
        host_id: String,
        lattice: String,
        friendly_name: String,
        version: String,
        labels: Vec<(String, String)>,
    ) -> (r: HostState)
        requires
            kvl_unique(labels.deep_view()),
        ensures
            r.wf(),
            r.host_id == host_id,
            r.lattice == lattice,
            r.friendly_name == friendly_name,
            r.version == version,
            r.labels == labels,
            r.components.deep_view() == Seq::<(Seq<char>, crate::types::ComponentSpecX)>::empty(),
            r.providers.deep_view() == Seq::<(Seq<char>, crate::types::ProviderInstanceX)>::empty(),
            r.links.deep_view() == Seq::<LinkX>::empty(),
            r.claims_components.deep_view() == Seq::<(Seq<char>, crate::types::ClaimsX)>::empty(),
            r.claims_providers.deep_view() == Seq::<(Seq<char>, crate::types::ClaimsX)>::empty(),
            r.registry_config.deep_view() == Seq::<
                (Seq<char>, crate::types::RegistryCredentialsX),
            >::empty(),
            r.stop_deadline is None,
    {
        let r = HostState {
            host_id,
            lattice,
            friendly_name,
            version,
            labels,
            components: Vec::new(),
            providers: Vec::new(),
            links: Vec::new(),
            claims_components: Vec::new(),
            claims_providers: Vec::new(),
            registry_config: Vec::new(),
            stop_deadline: None,
        };
        proof {
            assert(r.components.deep_view() =~= Seq::<
                (Seq<char>, crate::types::ComponentSpecX),
            >::empty());
            assert(r.providers.deep_view() =~= Seq::<
                (Seq<char>, crate::types::ProviderInstanceX),
            >::empty());
            assert(r.links.deep_view() =~= Seq::<LinkX>::empty());
            assert(r.claims_components.deep_view() =~= Seq::<
                (Seq<char>, crate::types::ClaimsX),
            >::empty());
            assert(r.claims_providers.deep_view() =~= Seq::<
                (Seq<char>, crate::types::ClaimsX),
            >::empty());
            assert(r.registry_config.deep_view() =~= Seq::<
                (Seq<char>, crate::types::RegistryCredentialsX),
            >::empty());
        }
        r
    }
}

} // verus!
