//! The lattice data bucket: its entry schema, the in-memory store that backs a
//! host where no transport store is configured, and the watcher that projects
//! bucket entries onto the host's state.

use vstd::prelude::*;

use crate::json::{
    json_decode,
    json_decoded,
    jobj_get,
    jobj_get_str,
    jobj_get_u64,
    jstr,
    jx_get_str,
    jx_get_u64,
    jx_obj_get,
    JVal,
    Jx,
};
use crate::kvlist::{kv_get, kvl_map, kvl_unique};
use crate::subject::{first_sep, lemma_first_sep_at};
use crate::types::{ComponentSpec, ComponentSpecX};
use crate::cmd::{opt_strmap_ok, opt_strmap_val, opt_str_ok, opt_str_val, opt_u64_ok, opt_u64_val};

verus! {

/// What was done to a bucket entry. A purge removes an entry with its history;
/// the watchers treat it as a delete.
#[derive(PartialEq, Eq, Structural, Clone, Copy, Debug)]
pub enum EntryOp {
    Put,
    Delete,
    Purge,
}

/// One change in a bucket: the key, the bytes under it, and what happened.
pub struct Entry {
    pub key: String,
    pub value: Vec<u8>,
    pub op: EntryOp,
}

/// View of [`Entry`].
pub struct EntryX {
    pub key: Seq<char>,
    pub value: Seq<u8>,
    pub op: EntryOp,
}

impl DeepView for Entry {
    type V = EntryX;

    open spec fn deep_view(&self) -> EntryX {
        EntryX { key: self.key@, value: self.value@, op: self.op }
    }
}

/// What a data-bucket key addresses, by its prefix before the first
/// underscore.
pub enum EntryKindX {
    Component(Seq<char>),
    Claims(Seq<char>),
    Linkdef,
    Refmap,
    Other,
}

/// Classifies a data-bucket key. `COMPONENT_<id>` and `CLAIMS_<pubkey>` carry
/// the projections; `LINKDEF_` entries are deprecated and `REFMAP_` entries
/// reserved, both ignored; everything else is unsupported.
pub open spec fn entry_kind(k: Seq<char>) -> EntryKindX {
    if first_sep(k, '_') == k.len() {
        EntryKindX::Other
    } else {
        let p = k.take(first_sep(k, '_'));
        let id = k.skip(first_sep(k, '_') + 1);
        if p == "COMPONENT"@ {
            EntryKindX::Component(id)
        } else if p == "CLAIMS"@ {
            EntryKindX::Claims(id)
        } else if p == "LINKDEF"@ {
            EntryKindX::Linkdef
        } else if p == "REFMAP"@ {
            EntryKindX::Refmap
        } else {
            EntryKindX::Other
        }
    }
}

/// Splits a key at its first underscore.
pub fn split_key(s: &str) -> (r: Option<(String, String)>)
    ensures
        match r {
            Some(pair) => first_sep(s@, '_') < s@.len() && pair.0@ == s@.take(first_sep(s@, '_'))
                && pair.1@ == s@.skip(first_sep(s@, '_') + 1),
            None => first_sep(s@, '_') == s@.len(),
        },
{
    let n = s.unicode_len();
    let mut i: usize = 0;
    while i < n
        invariant
            i <= n,
            n == s@.len(),
            forall|j: int| 0 <= j < i ==> s@[j] != '_',
        decreases n - i,
    {
        if s.get_char(i) == '_' {
            proof {
                lemma_first_sep_at(s@, '_', i as int);
                assert(s@.subrange(i as int + 1, n as int) =~= s@.skip(i as int + 1));
            }
            let prefix = s.substring_char(0, i).to_owned();
            let suffix = s.substring_char(i + 1, n).to_owned();
            proof {
                assert(prefix@ =~= s@.take(i as int));
            }
            return Some((prefix, suffix));
        }
        i = i + 1;
    }
    proof {
        lemma_first_sep_at(s@, '_', n as int);
    }
    None
}

/// The stored form of a component spec: its `reference`, its `max_instances`,
/// and its annotations.
pub open spec fn component_spec_jx(c: ComponentSpecX) -> Jx {
    Jx::Obj(
        seq![
            ("reference"@, Jx::Str(c.image_ref)),
            ("max_instances"@, Jx::UInt(c.max_instances as u64)),
            ("annotations"@, Jx::Obj(crate::event::strmap_jx(c.annotations))),
        ],
    )
}

/// Builds the stored form of a component spec.
pub fn component_spec_jval(c: &ComponentSpec) -> (r: JVal)
    ensures
        r.jx() == component_spec_jx(c.deep_view()),
{
    let mut fields: Vec<(String, JVal)> = Vec::new();
    fields.push((jstr("reference"), JVal::Str(c.image_ref.clone())));
    fields.push((jstr("max_instances"), JVal::UInt(c.max_instances as u64)));
    fields.push((jstr("annotations"), crate::event::strmap_jval(&c.annotations)));
    proof {
        crate::event::lemma_obj_jx(fields);
        assert(fields.deep_view() =~= component_spec_jx(c.deep_view())->Obj_0);
    }
    JVal::Obj(fields)
}

/// Whether a stored component spec decodes: an object with a string
/// `reference`, a `max_instances` that fits a `u32`, and annotations that are
/// absent or a string map.
pub open spec fn component_spec_decodable(j: Jx) -> bool {
    &&& j is Obj
    &&& jx_get_str(j->Obj_0, "reference"@) is Some
    &&& match jx_get_u64(j->Obj_0, "max_instances"@) {
        Some(n) => n <= u32::MAX,
        None => false,
    }
    &&& opt_strmap_ok(j->Obj_0, "annotations"@)
}

/// Decodes a stored component spec.
pub fn decode_component_spec(v: &JVal) -> (r: Option<ComponentSpec>)
    ensures
        match r {
            Some(c) => component_spec_decodable(v.jx()) && {
                let f = v.jx()->Obj_0;
                &&& jx_get_str(f, "reference"@) == Some(c.image_ref@)
                &&& jx_get_u64(f, "max_instances"@) == Some(c.max_instances as u64)
                &&& kvl_unique(c.annotations.deep_view())
                &&& kvl_map(c.annotations.deep_view()) == opt_strmap_val(f, "annotations"@)
            },
            None => !component_spec_decodable(v.jx()),
        },
{
    let fields = match v.as_obj() {
        Some(fields) => fields,
        None => {
            return None;
        },
    };
    let image_ref = match jobj_get_str(fields, &jstr("reference")) {
        Some(s) => s.clone(),
        None => {
            return None;
        },
    };
    let max_instances = match jobj_get_u64(fields, &jstr("max_instances")) {
        Some(n) => {
            if n > u32::MAX as u64 {
                return None;
            }
            n as u32
        },
        None => {
            return None;
        },
    };
    let annotations = match crate::cmd::get_opt_strmap(fields, &jstr("annotations")) {
        Some(m) => m,
        None => {
            return None;
        },
    };
    Some(ComponentSpec { image_ref, max_instances, annotations })
}

/// The claims a stored `CLAIMS_<pubkey>` entry decodes to: a function of the
/// entry's JSON alone, `None` where the shape is wrong. The `kind` field says
/// whether the claims describe a component or a provider; `metadata`, where
/// present, carries the optional name, version, revision, tags and call alias.
pub open spec fn claims_of(j: Jx) -> Option<crate::types::ClaimsX> {
    if !(j is Obj) {
        None
    } else {
        let f = j->Obj_0;
        let kind = if jx_get_str(f, "kind"@) == Some("component"@) {
            Some(crate::types::ClaimsKind::Component)
        } else if jx_get_str(f, "kind"@) == Some("provider"@) {
            Some(crate::types::ClaimsKind::Provider)
        } else {
            None
        };
        if kind is None || !(jx_get_str(f, "subject"@) is Some) || !(jx_get_str(f, "issuer"@)
            is Some) || !opt_u64_ok(f, "not_before"@) || !opt_u64_ok(f, "expires"@) || !(match
        jx_obj_get(f, "metadata"@) {
            Some(m) => m is Obj && claims_meta_ok(m->Obj_0),
            None => true,
        }) {
            None
        } else {
            Some(
                crate::types::ClaimsX {
                    kind: kind->0,
                    subject: jx_get_str(f, "subject"@)->0,
                    issuer: jx_get_str(f, "issuer"@)->0,
                    not_before: opt_u64_val(f, "not_before"@),
                    expires: opt_u64_val(f, "expires"@),
                    metadata: match jx_obj_get(f, "metadata"@) {
                        Some(m) => Some(claims_meta_of(m->Obj_0)),
                        None => None,
                    },
                },
            )
        }
    }
}

/// Whether a claims `metadata` object decodes.
pub open spec fn claims_meta_ok(f: Seq<(Seq<char>, Jx)>) -> bool {
    &&& opt_str_ok(f, "name"@)
    &&& opt_str_ok(f, "version"@)
    &&& opt_u64_ok(f, "revision"@)
    &&& opt_str_ok(f, "call_alias"@)
    &&& match jx_obj_get(f, "tags"@) {
        Some(t) => t is Arr && crate::json::strarr_fold(t->Arr_0) is Some,
        None => true,
    }
}

/// What a claims `metadata` object decodes to.
pub open spec fn claims_meta_of(f: Seq<(Seq<char>, Jx)>) -> crate::types::ClaimsMetaX {
    crate::types::ClaimsMetaX {
        name: opt_str_val(f, "name"@),
        version: opt_str_val(f, "version"@),
        revision: opt_u64_val(f, "revision"@),
        tags: match jx_obj_get(f, "tags"@) {
            Some(t) => Some(crate::json::strarr_fold(t->Arr_0)->0),
            None => None,
        },
        call_alias: opt_str_val(f, "call_alias"@),
    }
}

/// Decodes a stored claims entry.
pub fn decode_claims(v: &JVal) -> (r: Option<crate::types::Claims>)
    ensures
        match r {
            Some(c) => claims_of(v.jx()) == Some(c.deep_view()),
            None => claims_of(v.jx()) is None,
        },
{
    let fields = match v.as_obj() {
        Some(fields) => fields,
        None => {
            return None;
        },
    };
    let kind_name = match jobj_get_str(fields, &jstr("kind")) {
        Some(s) => s.clone(),
        None => {
            return None;
        },
    };
    let kind = if kind_name == jstr("component") {
        crate::types::ClaimsKind::Component
    } else if kind_name == jstr("provider") {
        crate::types::ClaimsKind::Provider
    } else {
        return None;
    };
    let subject = match jobj_get_str(fields, &jstr("subject")) {
        Some(s) => s.clone(),
        None => {
            return None;
        },
    };
    let issuer = match jobj_get_str(fields, &jstr("issuer")) {
        Some(s) => s.clone(),
        None => {
            return None;
        },
    };
    let not_before = match crate::cmd::get_opt_u64(fields, &jstr("not_before")) {
        Ok(t) => t,
        Err(_) => {
            return None;
        },
    };
    let expires = match crate::cmd::get_opt_u64(fields, &jstr("expires")) {
        Ok(t) => t,
        Err(_) => {
            return None;
        },
    };
    let metadata = match jobj_get(fields, &jstr("metadata")) {
        Some(mv) => {
            let mf = match mv.as_obj() {
                Some(mf) => mf,
                None => {
                    return None;
                },
            };
            let name = match crate::cmd::get_opt_str(mf, &jstr("name")) {
                Ok(x) => x,
                Err(_) => {
                    return None;
                },
            };
            let version = match crate::cmd::get_opt_str(mf, &jstr("version")) {
                Ok(x) => x,
                Err(_) => {
                    return None;
                },
            };
            let revision = match crate::cmd::get_opt_u64(mf, &jstr("revision")) {
                Ok(x) => x,
                Err(_) => {
                    return None;
                },
            };
            let call_alias = match crate::cmd::get_opt_str(mf, &jstr("call_alias")) {
                Ok(x) => x,
                Err(_) => {
                    return None;
                },
            };
            let tags = match jobj_get(mf, &jstr("tags")) {
                Some(tv) => match crate::json::jval_strarr(tv) {
                    Some(t) => Some(t),
                    None => {
                        return None;
                    },
                },
                None => None,
            };
            Some(crate::types::ClaimsMeta { name, version, revision, tags, call_alias })
        },
        None => None,
    };
    Some(crate::types::Claims { kind, subject, issuer, not_before, expires, metadata })
}

/// A key-value store held in memory, the default backing where no transport
/// store is configured. Keys are pairwise distinct.
pub struct MemStore {
    pub entries: Vec<(String, Vec<u8>)>,
}

impl MemStore {
    /// Every key has one entry.
    pub open spec fn wf(&self) -> bool {
        kvl_unique(self.entries.deep_view())
    }

    /// The map this store holds.
    pub open spec fn map(&self) -> Map<Seq<char>, Seq<u8>> {
        kvl_map(self.entries.deep_view())
    }

    /// An empty store.
    pub fn new() -> (r: MemStore)
        ensures
            r.wf(),
            r.map() == Map::<Seq<char>, Seq<u8>>::empty(),
    {
        let r = MemStore { entries: Vec::new() };
        proof {
            assert(r.entries.deep_view() =~= Seq::<(Seq<char>, Seq<u8>)>::empty());
        }
        r
    }

    /// The bytes under a key.
    pub fn get(&self, key: &String) -> (r: Option<&Vec<u8>>)
        requires
            self.wf(),
        ensures
            match r {
                Some(v) => self.map().contains_key(key@) && self.map()[key@] == v@,
                None => !self.map().contains_key(key@),
            },
    {
        kv_get(&self.entries, key)
    }

    /// Binds a key to the given bytes.
    pub fn put(&mut self, key: String, value: Vec<u8>)
        requires
            old(self).wf(),
        ensures
            final(self).wf(),
            final(self).map() == old(self).map().insert(key@, value@),
    {
        proof {
            assert(value.deep_view() =~= value@);
        }
        crate::kvlist::kv_insert(&mut self.entries, key, value);
    }

    /// Removes a key; removing an absent key is allowed and changes nothing.
    pub fn del(&mut self, key: &String)
        requires
            old(self).wf(),
        ensures
            final(self).wf(),
            final(self).map() == old(self).map().remove(key@),
    {
        crate::kvlist::kv_remove(&mut self.entries, key);
    }

    /// The keys currently bound, in insertion order.
    pub fn keys(&self) -> (r: Vec<String>)
        requires
            self.wf(),
        ensures
            r.deep_view().len() == self.entries.deep_view().len(),
            forall|i: int|
                0 <= i < r.deep_view().len() ==> r.deep_view()[i] == self.entries.deep_view()[i].0,
    {
        let mut r: Vec<String> = Vec::new();
        let mut i: usize = 0;
        while i < self.entries.len()
            invariant
                i <= self.entries.len(),
                self.entries.deep_view().len() == self.entries.len(),
                r.deep_view().len() == i,
                forall|j: int|
                    0 <= j < i ==> r.deep_view()[j] == self.entries.deep_view()[j].0,
            decreases self.entries.len() - i,
        {
            let ghost before = r.deep_view();
            r.push(self.entries[i].0.clone());
            proof {
                assert(r.deep_view() =~= before.push(self.entries@[i as int].0@));
            }
            i = i + 1;
        }
        r
    }
}

/// The projection of one component spec: what P-series reasoning compares. Two
/// stored specs project equal exactly when they name the same reference and
/// count and their annotations agree as maps.
pub struct CompProjX {
    pub image_ref: Seq<char>,
    pub max_instances: u32,
    pub annotations: Map<Seq<char>, Seq<char>>,
}

/// Projects an in-memory component spec.
pub open spec fn comp_proj(c: ComponentSpecX) -> CompProjX {
    CompProjX {
        image_ref: c.image_ref,
        max_instances: c.max_instances,
        annotations: kvl_map(c.annotations),
    }
}

/// What a stored component value projects to, as a function of its JSON alone.
pub open spec fn component_proj_of(j: Jx) -> Option<CompProjX> {
    if component_spec_decodable(j) {
        Some(
            CompProjX {
                image_ref: jx_get_str(j->Obj_0, "reference"@)->0,
                max_instances: jx_get_u64(j->Obj_0, "max_instances"@)->0 as u32,
                annotations: opt_strmap_val(j->Obj_0, "annotations"@),
            },
        )
    } else {
        None
    }
}

/// What an entry's bytes project to, as a function of the bytes alone.
pub open spec fn decoded_comp(bytes: Seq<u8>) -> Option<CompProjX> {
    match json_decoded(bytes) {
        Some(j) => component_proj_of(j),
        None => None,
    }
}

/// What an entry's bytes decode to as claims, as a function of the bytes
/// alone.
pub open spec fn decoded_claims(bytes: Seq<u8>) -> Option<crate::types::ClaimsX> {
    match json_decoded(bytes) {
        Some(j) => claims_of(j),
        None => None,
    }
}

/// How one bucket entry moves the projected component map: a decodable
/// `COMPONENT_<id>` put upserts the projection, a delete removes it, and
/// everything else leaves the map alone.
pub open spec fn apply_component_entry(m: Map<Seq<char>, CompProjX>, e: EntryX) -> Map<
    Seq<char>,
    CompProjX,
> {
    match entry_kind(e.key) {
        EntryKindX::Component(id) => match e.op {
            EntryOp::Put => match decoded_comp(e.value) {
                Some(c) => m.insert(id, c),
                None => m,
            },
            EntryOp::Delete => m.remove(id),
            EntryOp::Purge => m.remove(id),
        },
        _ => m,
    }
}

impl crate::host::HostState {
    /// The projected component map.
    pub open spec fn components_proj(&self) -> Map<Seq<char>, CompProjX> {
        self.components_map().map_values(|c: ComponentSpecX| comp_proj(c))
    }
}

/// An event announcing that a component was scaled, over the given claims,
/// annotation map, host, count, reference and identifier. The annotations'
/// field order inside the payload is not pinned; their map is.
pub open spec fn is_component_scaled_event(
    ev: (Seq<char>, Jx),
    claims: Option<crate::types::ClaimsX>,
    ann_map: Map<Seq<char>, Seq<char>>,
    host_id: Seq<char>,
    max_instances: u32,
    image_ref: Seq<char>,
    component_id: Seq<char>,
) -> bool {
    &&& ev.0 == "component_scaled"@
    &&& exists|ann: Seq<(Seq<char>, Seq<char>)>|
        kvl_unique(ann) && kvl_map(ann) == ann_map && ev.1
            == crate::event::component_scaled_data(
            claims,
            ann,
            host_id,
            max_instances,
            image_ref,
            component_id,
        )
}

/// What processing one entry yields besides the state change: the lifecycle
/// events to publish, and the message of a soft failure. A soft failure never
/// aborts the watcher; the entry is discarded and the message logged.
pub struct ProcessOutcome {
    pub events: Vec<crate::types::Event>,
    pub soft_error: Option<String>,
}

impl crate::host::HostState {
    /// Applies one data-bucket entry to the host's projections, as the watcher
    /// does for every entry it sees. In live mode a component put announces
    /// `component_scaled`; during the bootstrap replay no events are emitted.
    /// Claims whose subject differs from their key are discarded. Deprecated
    /// `LINKDEF_` and reserved `REFMAP_` entries are ignored; so is any other
    /// key, with a soft error.
    pub fn process_entry(&mut self, e: &Entry, live: bool) -> (out: ProcessOutcome)
        requires
            old(self).wf(),
        ensures
            final(self).wf(),
            final(self).host_id == old(self).host_id,
            final(self).lattice == old(self).lattice,
            final(self).friendly_name == old(self).friendly_name,
            final(self).version == old(self).version,
            final(self).labels == old(self).labels,
            final(self).providers == old(self).providers,
            final(self).links == old(self).links,
            final(self).registry_config == old(self).registry_config,
            final(self).stop_deadline == old(self).stop_deadline,
            final(self).components_proj() == apply_component_entry(
                old(self).components_proj(),
                e.deep_view(),
            ),
            match entry_kind(e.key@) {
                EntryKindX::Claims(pk) => match e.op {
                    EntryOp::Put => match decoded_claims(e.value@) {
                        Some(c) => if c.subject == pk {
                            if c.kind is Component {
                                &&& kvl_map(final(self).claims_components.deep_view()) == kvl_map(
                                    old(self).claims_components.deep_view(),
                                ).insert(pk, c)
                                &&& final(self).claims_providers == old(self).claims_providers
                            } else {
                                &&& kvl_map(final(self).claims_providers.deep_view()) == kvl_map(
                                    old(self).claims_providers.deep_view(),
                                ).insert(pk, c)
                                &&& final(self).claims_components == old(self).claims_components
                            }
                        } else {
                            &&& final(self).claims_components == old(self).claims_components
                            &&& final(self).claims_providers == old(self).claims_providers
                        },
                        None => final(self).claims_components == old(self).claims_components
                            && final(self).claims_providers == old(self).claims_providers,
                    },
                    _ => {
                        &&& kvl_map(final(self).claims_components.deep_view()) == kvl_map(
                            old(self).claims_components.deep_view(),
                        ).remove(pk)
                        &&& kvl_map(final(self).claims_providers.deep_view()) == kvl_map(
                            old(self).claims_providers.deep_view(),
                        ).remove(pk)
                    },
                },
                _ => final(self).claims_components == old(self).claims_components && final(self).claims_providers == old(self).claims_providers,
            },
            match entry_kind(e.key@) {
                EntryKindX::Component(id) => match (e.op, decoded_comp(e.value@)) {
                    (EntryOp::Put, Some(c)) => {
                        &&& (live ==> out.events.deep_view().len() == 1
                            && is_component_scaled_event(
                            out.events.deep_view()[0],
                            if kvl_map(old(self).claims_components.deep_view()).contains_key(id) {
                                Some(kvl_map(old(self).claims_components.deep_view())[id])
                            } else {
                                None
                            },
                            c.annotations,
                            old(self).host_id@,
                            c.max_instances,
                            c.image_ref,
                            id,
                        ))
                        &&& (!live ==> out.events.deep_view().len() == 0)
                        &&& out.soft_error is None
                    },
                    (EntryOp::Put, None) => out.events.deep_view().len() == 0 && out.soft_error
                        is Some,
                    _ => out.events.deep_view().len() == 0 && out.soft_error is None,
                },
                EntryKindX::Claims(pk) => out.events.deep_view().len() == 0 && (match e.op {
                    EntryOp::Put => out.soft_error is Some <==> (match decoded_claims(e.value@) {
                        Some(c) => c.subject != pk,
                        None => true,
                    }),
                    _ => out.soft_error is None,
                }),
                EntryKindX::Linkdef => out.events.deep_view().len() == 0 && out.soft_error is None,
                EntryKindX::Refmap => out.events.deep_view().len() == 0 && out.soft_error is None,
                EntryKindX::Other => out.events.deep_view().len() == 0 && out.soft_error is Some,
            },
    {
        let kind = split_key(e.key.as_str());
        let (prefix, id) = match kind {
            Some(pair) => pair,
            None => {
                return ProcessOutcome {
                    events: Vec::new(),
                    soft_error: Some(jstr("unsupported data bucket key")),
                };
            },
        };
        if prefix == jstr("COMPONENT") {
            self.process_component_entry(e, id, live)
        } else if prefix == jstr("CLAIMS") {
            self.process_claims_entry(e, id)
        } else if prefix == jstr("LINKDEF") {
            ProcessOutcome { events: Vec::new(), soft_error: None }
        } else if prefix == jstr("REFMAP") {
            ProcessOutcome { events: Vec::new(), soft_error: None }
        } else {
            ProcessOutcome { events: Vec::new(), soft_error: Some(jstr("unsupported data bucket key")) }
        }
    }

    /// Applies a `COMPONENT_<id>` entry: upserts or removes the projection and
    /// announces the scale in live mode.
    fn process_component_entry(&mut self, e: &Entry, id: String, live: bool) -> (out:
        ProcessOutcome)
        requires
            old(self).wf(),
            entry_kind(e.key@) == EntryKindX::Component(id@),
        ensures
            final(self).wf(),
            final(self).host_id == old(self).host_id,
            final(self).lattice == old(self).lattice,
            final(self).friendly_name == old(self).friendly_name,
            final(self).version == old(self).version,
            final(self).labels == old(self).labels,
            final(self).providers == old(self).providers,
            final(self).links == old(self).links,
            final(self).registry_config == old(self).registry_config,
            final(self).stop_deadline == old(self).stop_deadline,
            final(self).claims_components == old(self).claims_components,
            final(self).claims_providers == old(self).claims_providers,
            final(self).components_proj() == apply_component_entry(
                old(self).components_proj(),
                e.deep_view(),
            ),
            match (e.op, decoded_comp(e.value@)) {
                (EntryOp::Put, Some(c)) => {
                    &&& (live ==> out.events.deep_view().len() == 1 && is_component_scaled_event(
                        out.events.deep_view()[0],
                        if kvl_map(old(self).claims_components.deep_view()).contains_key(id@) {
                            Some(kvl_map(old(self).claims_components.deep_view())[id@])
                        } else {
                            None
                        },
                        c.annotations,
                        old(self).host_id@,
                        c.max_instances,
                        c.image_ref,
                        id@,
                    ))
                    &&& (!live ==> out.events.deep_view().len() == 0)
                    &&& out.soft_error is None
                },
                (EntryOp::Put, None) => out.events.deep_view().len() == 0 && out.soft_error
                    is Some,
                _ => out.events.deep_view().len() == 0 && out.soft_error is None,
            },
    {
        match e.op {
            EntryOp::Put => {
                let jv = match json_decode(&e.value) {
                    Ok(jv) => jv,
                    Err(msg) => {
                        return ProcessOutcome { events: Vec::new(), soft_error: Some(msg) };
                    },
                };
                let spec = match decode_component_spec(&jv) {
                    Some(spec) => spec,
                    None => {
                        return ProcessOutcome {
                            events: Vec::new(),
                            soft_error: Some(jstr("stored component spec does not decode")),
                        };
                    },
                };
                let ghost specx = spec.deep_view();
                proof {
                    assert(decoded_comp(e.value@) == Some(comp_proj(specx)));
                }
                let mut events: Vec<crate::types::Event> = Vec::new();
                if live {
                    let claims = kv_get(&self.claims_components, &id);
                    let data = crate::event::component_scaled(
                        claims,
                        &spec.annotations,
                        &self.host_id,
                        spec.max_instances,
                        &spec.image_ref,
                        &id,
                    );
                    let ghost before = events.deep_view();
                    events.push((jstr("component_scaled"), data));
                    proof {
                        assert(events.deep_view() =~= before.push(
                            ("component_scaled"@, data.jx()),
                        ));
                    }
                }
                let ghost old_proj = self.components_proj();
                crate::kvlist::kv_insert(&mut self.components, id, spec);
                proof {
                    assert(self.components_proj() =~= old_proj.insert(
                        e.deep_view().key.skip(first_sep(e.deep_view().key, '_') + 1),
                        comp_proj(specx),
                    ));
                }
                ProcessOutcome { events, soft_error: None }
            },
            _ => {
                let ghost old_proj = self.components_proj();
                crate::kvlist::kv_remove(&mut self.components, &id);
                proof {
                    assert(self.components_proj() =~= old_proj.remove(
                        e.deep_view().key.skip(first_sep(e.deep_view().key, '_') + 1),
                    ));
                }
                ProcessOutcome { events: Vec::new(), soft_error: None }
            },
        }
    }

    /// Applies a `CLAIMS_<pubkey>` entry: upserts into the matching claims map
    /// where the subject agrees with the key, removes from both on a delete.
    fn process_claims_entry(&mut self, e: &Entry, pk: String) -> (out: ProcessOutcome)
        requires
            old(self).wf(),
            entry_kind(e.key@) == EntryKindX::Claims(pk@),
        ensures
            final(self).wf(),
            final(self).host_id == old(self).host_id,
            final(self).lattice == old(self).lattice,
            final(self).friendly_name == old(self).friendly_name,
            final(self).version == old(self).version,
            final(self).labels == old(self).labels,
            final(self).providers == old(self).providers,
            final(self).links == old(self).links,
            final(self).registry_config == old(self).registry_config,
            final(self).stop_deadline == old(self).stop_deadline,
            final(self).components == old(self).components,
            out.events.deep_view().len() == 0,
            match e.op {
                EntryOp::Put => match decoded_claims(e.value@) {
                    Some(c) => {
                        &&& (c.subject == pk@ ==> (if c.kind is Component {
                            kvl_map(final(self).claims_components.deep_view()) == kvl_map(old(self).claims_components.deep_view()).insert(pk@, c) && final(self).claims_providers == old(self).claims_providers
                        } else {
                            kvl_map(final(self).claims_providers.deep_view()) == kvl_map(old(self).claims_providers.deep_view()).insert(pk@, c) && final(self).claims_components == old(self).claims_components
                        }) && out.soft_error is None)
                        &&& (c.subject != pk@ ==> final(self).claims_components == old(self).claims_components && final(self).claims_providers == old(self).claims_providers && out.soft_error is Some)
                    },
                    None => final(self).claims_components == old(self).claims_components && final(self).claims_providers == old(self).claims_providers && out.soft_error is Some,
                },
                _ => {
                    &&& kvl_map(final(self).claims_components.deep_view()) == kvl_map(
                        old(self).claims_components.deep_view(),
                    ).remove(pk@)
                    &&& kvl_map(final(self).claims_providers.deep_view()) == kvl_map(
                        old(self).claims_providers.deep_view(),
                    ).remove(pk@)
                    &&& out.soft_error is None
                },
            },
    {
        match e.op {
            EntryOp::Put => {
                let jv = match json_decode(&e.value) {
                    Ok(jv) => jv,
                    Err(msg) => {
                        return ProcessOutcome { events: Vec::new(), soft_error: Some(msg) };
                    },
                };
                let claims = match decode_claims(&jv) {
                    Some(claims) => claims,
                    None => {
                        return ProcessOutcome {
                            events: Vec::new(),
                            soft_error: Some(jstr("stored claims do not decode")),
                        };
                    },
                };
                if !(claims.subject == pk) {
                    return ProcessOutcome {
                        events: Vec::new(),
                        soft_error: Some(jstr("claims subject does not match the entry key")),
                    };
                }
                match claims.kind {
                    crate::types::ClaimsKind::Component => {
                        crate::kvlist::kv_insert(&mut self.claims_components, pk, claims);
                    },
                    crate::types::ClaimsKind::Provider => {
                        crate::kvlist::kv_insert(&mut self.claims_providers, pk, claims);
                    },
                }
                proof {
                    assert(self.components_map() == old(self).components_map());
                }
                ProcessOutcome { events: Vec::new(), soft_error: None }
            },
            _ => {
                crate::kvlist::kv_remove(&mut self.claims_components, &pk);
                crate::kvlist::kv_remove(&mut self.claims_providers, &pk);
                proof {
                    assert(self.components_map() == old(self).components_map());
                }
                ProcessOutcome { events: Vec::new(), soft_error: None }
            },
        }
    }
}

/// Folding the object form of a string map gives the map back.
pub proof fn lemma_strmap_fold_of_strmap_jx(m: Seq<(Seq<char>, Seq<char>)>)
    ensures
        crate::json::strmap_fold(crate::event::strmap_jx(m)) == Some(kvl_map(m)),
    decreases m.len(),
{
    if m.len() == 0 {
        assert(crate::event::strmap_jx(m).len() == 0);
    } else {
        lemma_strmap_fold_of_strmap_jx(m.drop_last());
        assert(crate::event::strmap_jx(m).drop_last() =~= crate::event::strmap_jx(m.drop_last()));
        assert(crate::event::strmap_jx(m).last() == (m.last().0, Jx::Str(m.last().1)));
    }
}

/// What a scale or update writes under `COMPONENT_<id>` projects back to the
/// spec it was written from: storing loses nothing the projection keeps.
pub proof fn lemma_component_spec_roundtrip(spec: ComponentSpecX)
    ensures
        component_proj_of(component_spec_jx(spec)) == Some(comp_proj(spec)),
{
    reveal_strlit("reference");
    reveal_strlit("max_instances");
    reveal_strlit("annotations");
    let f = component_spec_jx(spec)->Obj_0;
    let f1 = f.skip(1);
    let f2 = f1.skip(1);
    assert(f[0] == ("reference"@, Jx::Str(spec.image_ref)));
    assert(f1[0] == f[1]);
    assert(f1.skip(1) == f2);
    assert(f2[0] == f[2]);
    assert(jx_get_str(f, "reference"@) == Some(spec.image_ref));
    assert("reference"@.len() == 9);
    assert("max_instances"@.len() == 13);
    assert("annotations"@.len() == 11);
    assert("reference"@ != "max_instances"@);
    assert("reference"@ != "annotations"@);
    assert("max_instances"@ != "annotations"@);
    assert(jx_obj_get(f, "max_instances"@) == jx_obj_get(f1, "max_instances"@));
    assert(jx_get_u64(f, "max_instances"@) == Some(spec.max_instances as u64));
    assert(jx_obj_get(f, "annotations"@) == jx_obj_get(f1, "annotations"@));
    assert(jx_obj_get(f1, "annotations"@) == jx_obj_get(f2, "annotations"@));
    assert(jx_obj_get(f, "annotations"@) == Some(
        Jx::Obj(crate::event::strmap_jx(spec.annotations)),
    ));
    lemma_strmap_fold_of_strmap_jx(spec.annotations);
    assert(crate::cmd::opt_strmap_val(f, "annotations"@) == kvl_map(spec.annotations));
    assert(component_spec_decodable(component_spec_jx(spec)));
}

/// The key a scale writes classifies as that component's entry: the prefix
/// before the first underscore is `COMPONENT`, and everything after it is the
/// component's identifier, underscores included.
pub proof fn lemma_component_key(id: Seq<char>)
    ensures
        entry_kind("COMPONENT_"@ + id) == EntryKindX::Component(id),
{
    reveal_strlit("COMPONENT_");
    reveal_strlit("COMPONENT");
    let k = "COMPONENT_"@ + id;
    assert(forall|j: int| 0 <= j < 9 ==> k[j] == "COMPONENT_"@[j]);
    assert(k[9] == '_');
    lemma_first_sep_at(k, '_', 9);
    assert(k.take(9) =~= "COMPONENT"@);
    assert(k.skip(10) =~= id);
}

/// A successful scale writes the desired spec under `COMPONENT_<id>`; when
/// the bucket echoes a put of that key whose JSON is the written value, the
/// live watcher's processing upserts the projection and announces
/// `component_scaled` naming the same component, reference and count — the
/// echo hypothesis stands for the bus handing back what was written.
pub proof fn lemma_scale_echo_scaled(e: EntryX, spec: ComponentSpecX, id: Seq<char>)
    requires
        e.key == "COMPONENT_"@ + id,
        e.op is Put,
        json_decoded(e.value) == Some(component_spec_jx(spec)),
    ensures
        entry_kind(e.key) == EntryKindX::Component(id),
        decoded_comp(e.value) == Some(comp_proj(spec)),
        decoded_comp(e.value)->0.image_ref == spec.image_ref,
        decoded_comp(e.value)->0.max_instances == spec.max_instances,
{
    lemma_component_key(id);
    lemma_component_spec_roundtrip(spec);
}

/// Where the watcher stands: replaying what the bucket already held, or live.
/// During the replay no events are emitted — the host is bootstrapping, not
/// transitioning; from the first watched change on it is live.
#[derive(PartialEq, Eq, Structural, Clone, Copy, Debug)]
pub enum WatchPhase {
    Replaying,
    Live,
}

/// The reconciliation loop's state. The caller drains the bucket's current
/// entries through [`DataWatcher::on_entry`], calls
/// [`DataWatcher::finish_replay`], and then feeds every watched change the
/// same way; the watcher's unexpected end is fatal and must stop the host.
pub struct DataWatcher {
    pub phase: WatchPhase,
}

impl DataWatcher {
    /// A watcher at the start of its bootstrap replay.
    pub fn new() -> (r: DataWatcher)
        ensures
            r.phase is Replaying,
    {
        DataWatcher { phase: WatchPhase::Replaying }
    }

    /// Leaves the bootstrap replay: every further entry emits events.
    pub fn finish_replay(&mut self)
        ensures
            final(self).phase is Live,
    {
        self.phase = WatchPhase::Live;
    }

    /// Applies one entry to the host under the watcher's phase: the full step
    /// of [`crate::host::HostState::process_entry`], with events exactly in
    /// the live phase.
    pub fn on_entry(&self, state: &mut crate::host::HostState, e: &Entry) -> (out: ProcessOutcome)
        requires
            old(state).wf(),
        ensures
            final(state).wf(),
            final(state).host_id == old(state).host_id,
            final(state).lattice == old(state).lattice,
            final(state).friendly_name == old(state).friendly_name,
            final(state).version == old(state).version,
            final(state).labels == old(state).labels,
            final(state).providers == old(state).providers,
            final(state).links == old(state).links,
            final(state).registry_config == old(state).registry_config,
            final(state).stop_deadline == old(state).stop_deadline,
            final(state).components_proj() == apply_component_entry(
                old(state).components_proj(),
                e.deep_view(),
            ),
            match entry_kind(e.key@) {
                EntryKindX::Claims(pk) => match e.op {
                    EntryOp::Put => match decoded_claims(e.value@) {
                        Some(c) => if c.subject == pk {
                            if c.kind is Component {
                                &&& kvl_map(final(state).claims_components.deep_view()) == kvl_map(
                                    old(state).claims_components.deep_view(),
                                ).insert(pk, c)
                                &&& final(state).claims_providers == old(state).claims_providers
                            } else {
                                &&& kvl_map(final(state).claims_providers.deep_view()) == kvl_map(
                                    old(state).claims_providers.deep_view(),
                                ).insert(pk, c)
                                &&& final(state).claims_components == old(state).claims_components
                            }
                        } else {
                            &&& final(state).claims_components == old(state).claims_components
                            &&& final(state).claims_providers == old(state).claims_providers
                        },
                        None => final(state).claims_components == old(state).claims_components
                            && final(state).claims_providers == old(state).claims_providers,
                    },
                    _ => {
                        &&& kvl_map(final(state).claims_components.deep_view()) == kvl_map(
                            old(state).claims_components.deep_view(),
                        ).remove(pk)
                        &&& kvl_map(final(state).claims_providers.deep_view()) == kvl_map(
                            old(state).claims_providers.deep_view(),
                        ).remove(pk)
                    },
                },
                _ => final(state).claims_components == old(state).claims_components && final(state).claims_providers == old(state).claims_providers,
            },
            match entry_kind(e.key@) {
                EntryKindX::Component(id) => match (e.op, decoded_comp(e.value@)) {
                    (EntryOp::Put, Some(c)) => {
                        &&& (self.phase is Live ==> out.events.deep_view().len() == 1
                            && is_component_scaled_event(
                            out.events.deep_view()[0],
                            if kvl_map(old(state).claims_components.deep_view()).contains_key(id) {
                                Some(kvl_map(old(state).claims_components.deep_view())[id])
                            } else {
                                None
                            },
                            c.annotations,
                            old(state).host_id@,
                            c.max_instances,
                            c.image_ref,
                            id,
                        ))
                        &&& (self.phase is Replaying ==> out.events.deep_view().len() == 0)
                        &&& out.soft_error is None
                    },
                    (EntryOp::Put, None) => out.events.deep_view().len() == 0 && out.soft_error
                        is Some,
                    _ => out.events.deep_view().len() == 0 && out.soft_error is None,
                },
                EntryKindX::Claims(pk) => out.events.deep_view().len() == 0 && (match e.op {
                    EntryOp::Put => out.soft_error is Some <==> (match decoded_claims(e.value@) {
                        Some(c) => c.subject != pk,
                        None => true,
                    }),
                    _ => out.soft_error is None,
                }),
                EntryKindX::Linkdef => out.events.deep_view().len() == 0 && out.soft_error
                    is None,
                EntryKindX::Refmap => out.events.deep_view().len() == 0 && out.soft_error is None,
                EntryKindX::Other => out.events.deep_view().len() == 0 && out.soft_error is Some,
            },
    {
        state.process_entry(e, matches!(self.phase, WatchPhase::Live))
    }
}

/// Replays a sequence of bucket entries onto a projected component map, oldest
/// entry first.
pub open spec fn replay_components(m0: Map<Seq<char>, CompProjX>, es: Seq<EntryX>) -> Map<
    Seq<char>,
    CompProjX,
>
    decreases es.len(),
{
    if es.len() == 0 {
        m0
    } else {
        apply_component_entry(replay_components(m0, es.drop_last()), es.last())
    }
}

/// The subsequence of entries that address `COMPONENT_<id>`.
pub open spec fn key_entries(es: Seq<EntryX>, id: Seq<char>) -> Seq<EntryX>
    decreases es.len(),
{
    if es.len() == 0 {
        es
    } else if entry_kind(es.last().key) == EntryKindX::Component(id) {
        key_entries(es.drop_last(), id).push(es.last())
    } else {
        key_entries(es.drop_last(), id)
    }
}

/// Replays the entries of one component onto its projected value alone.
pub open spec fn replay_key(v0: Option<CompProjX>, es: Seq<EntryX>) -> Option<CompProjX>
    decreases es.len(),
{
    if es.len() == 0 {
        v0
    } else {
        let prev = replay_key(v0, es.drop_last());
        match es.last().op {
            EntryOp::Put => match decoded_comp(es.last().value) {
                Some(c) => Some(c),
                None => prev,
            },
            _ => None,
        }
    }
}

/// The value a map holds under a key, where it holds one.
pub open spec fn opt_get(m: Map<Seq<char>, CompProjX>, id: Seq<char>) -> Option<CompProjX> {
    if m.contains_key(id) {
        Some(m[id])
    } else {
        None
    }
}

/// After a replay, each component's projected value is decided by the entries
/// that address it, in their order, and by nothing else.
pub proof fn lemma_replay_per_key(m0: Map<Seq<char>, CompProjX>, es: Seq<EntryX>, id: Seq<char>)
    ensures
        opt_get(replay_components(m0, es), id) == replay_key(opt_get(m0, id), key_entries(es, id)),
    decreases es.len(),
{
    if es.len() > 0 {
        lemma_replay_per_key(m0, es.drop_last(), id);
        let prev = replay_components(m0, es.drop_last());
        match entry_kind(es.last().key) {
            EntryKindX::Component(eid) => {
                if eid == id {
                    assert(key_entries(es, id) == key_entries(es.drop_last(), id).push(es.last()));
                    assert(key_entries(es, id).drop_last() =~= key_entries(es.drop_last(), id));
                } else {
                    assert(opt_get(apply_component_entry(prev, es.last()), id) == opt_get(
                        prev,
                        id,
                    ));
                }
            },
            _ => {},
        }
    }
}

/// Replaying a sequence of bucket writes gives the same projected component
/// map as replaying any reordering of it that keeps each component's entries
/// in their order: the per-key order decides the outcome, the interleaving
/// does not.
pub proof fn lemma_replay_respects_per_key_order(
    m0: Map<Seq<char>, CompProjX>,
    w1: Seq<EntryX>,
    w2: Seq<EntryX>,
)
    requires
        forall|id: Seq<char>| #[trigger] key_entries(w1, id) == key_entries(w2, id),
    ensures
        replay_components(m0, w1) == replay_components(m0, w2),
{
    let r1 = replay_components(m0, w1);
    let r2 = replay_components(m0, w2);
    assert forall|id: Seq<char>| #![all_triggers]
        (r1.contains_key(id) == r2.contains_key(id)) && (r1.contains_key(id) ==> r1[id]
            == r2[id]) by {
        lemma_replay_per_key(m0, w1, id);
        lemma_replay_per_key(m0, w2, id);
        assert(key_entries(w1, id) == key_entries(w2, id));
        assert(opt_get(r1, id) == opt_get(r2, id));
    }
    assert(r1.dom() =~= r2.dom());
    assert(r1 =~= r2);
}

} // verus!
