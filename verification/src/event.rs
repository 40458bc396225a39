//! Lifecycle event payloads.
//!
//! Each builder here pins, field by field, the JSON payload of one lifecycle
//! event. The publisher wraps a payload in the CloudEvents envelope built by
//! [`event_envelope`] and sends it on the subject [`event_subject`] gives.

use vstd::prelude::*;

use crate::json::{JVal, Jx};
use crate::json::jstr;
use crate::types::{dec_chars, dec_str, Claims, ClaimsX};

verus! {

/// An object value's model is its fields' models.
pub proof fn lemma_obj_jx(v: Vec<(String, JVal)>)
    ensures
        (JVal::Obj(v)).jx() == Jx::Obj(v.deep_view()),
{
    let j = JVal::Obj(v).jx();
    assert(forall|i: int| 0 <= i < v@.len() ==> j->Obj_0[i] == v.deep_view()[i]);
    assert(j->Obj_0 =~= v.deep_view());
}

/// An array value's model is its elements' models.
pub proof fn lemma_arr_jx(v: Vec<JVal>)
    ensures
        (JVal::Arr(v)).jx() == Jx::Arr(v.deep_view()),
{
    let j = JVal::Arr(v).jx();
    assert(forall|i: int| 0 <= i < v@.len() ==> j->Arr_0[i] == v.deep_view()[i]);
    assert(j->Arr_0 =~= v.deep_view());
}

/// A string-to-string map as JSON object fields.
pub open spec fn strmap_jx(m: Seq<(Seq<char>, Seq<char>)>) -> Seq<(Seq<char>, Jx)> {
    m.map_values(|p: (Seq<char>, Seq<char>)| (p.0, Jx::Str(p.1)))
}

/// A list of strings as a JSON array.
pub open spec fn strarr_jx(v: Seq<Seq<char>>) -> Jx {
    Jx::Arr(v.map_values(|s: Seq<char>| Jx::Str(s)))
}

/// An optional string as a JSON string or null.
pub open spec fn opt_str_jx(v: Option<Seq<char>>) -> Jx {
    match v {
        Some(s) => Jx::Str(s),
        None => Jx::Null,
    }
}

/// An optional number as a JSON number or null.
pub open spec fn opt_u64_jx(v: Option<u64>) -> Jx {
    match v {
        Some(n) => Jx::UInt(n),
        None => Jx::Null,
    }
}

/// A timestamp in decimal, or `never` where there is none.
pub open spec fn human_time(v: Option<u64>) -> Seq<char> {
    match v {
        Some(n) => dec_chars(n as nat),
        None => "never"@,
    }
}

/// Builds the JSON object over a string-to-string map.
pub fn strmap_jval(m: &Vec<(String, String)>) -> (r: JVal)
    ensures
        r.jx() == Jx::Obj(strmap_jx(m.deep_view())),
{
    let mut fields: Vec<(String, JVal)> = Vec::new();
    let mut i: usize = 0;
    while i < m.len()
        invariant
            i <= m.len(),
            fields.deep_view() =~= strmap_jx(m.deep_view()).take(i as int),
        decreases m.len() - i,
    {
        let ghost before = fields.deep_view();
        fields.push((m[i].0.clone(), JVal::Str(m[i].1.clone())));
        proof {
            assert(fields.deep_view() =~= before.push(
                (m@[i as int].0@, Jx::Str(m@[i as int].1@)),
            ));
            assert(fields.deep_view() =~= strmap_jx(m.deep_view()).take(i as int + 1));
        }
        i = i + 1;
    }
    proof {
        assert(strmap_jx(m.deep_view()).take(m@.len() as int) =~= strmap_jx(m.deep_view()));
        lemma_obj_jx(fields);
    }
    JVal::Obj(fields)
}

/// Builds the JSON array over a list of strings.
pub fn strarr_jval(v: &Vec<String>) -> (r: JVal)
    ensures
        r.jx() == strarr_jx(v.deep_view()),
{
    let mut elems: Vec<JVal> = Vec::new();
    let mut i: usize = 0;
    while i < v.len()
        invariant
            i <= v.len(),
            elems.deep_view() =~= v.deep_view().map_values(|s: Seq<char>| Jx::Str(s)).take(
                i as int,
            ),
        decreases v.len() - i,
    {
        let ghost before = elems.deep_view();
        elems.push(JVal::Str(v[i].clone()));
        proof {
            assert(elems.deep_view() =~= before.push(Jx::Str(v@[i as int]@)));
            assert(elems.deep_view() =~= v.deep_view().map_values(|s: Seq<char>| Jx::Str(s)).take(
                i as int + 1,
            ));
        }
        i = i + 1;
    }
    proof {
        let full = v.deep_view().map_values(|s: Seq<char>| Jx::Str(s));
        assert(full.take(v@.len() as int) =~= full);
        lemma_arr_jx(elems);
    }
    JVal::Arr(elems)
}

/// Builds a JSON string or null over an optional string.
pub fn opt_str_jval(v: &Option<String>) -> (r: JVal)
    ensures
        r.jx() == opt_str_jx(v.deep_view()),
{
    match v {
        Some(s) => JVal::Str(s.clone()),
        None => JVal::Null,
    }
}

/// The timestamp text of an optional time.
pub fn human_time_str(v: &Option<u64>) -> (r: String)
    ensures
        r@ == human_time(*v),
{
    match v {
        Some(n) => dec_str(*n),
        None => jstr("never"),
    }
}

/// The payload describing a component's claims inside `component_scaled`.
pub open spec fn component_claims_jx(c: ClaimsX) -> Jx {
    match c.metadata {
        Some(m) => Jx::Obj(
            seq![
                ("call_alias"@, opt_str_jx(m.call_alias)),
                ("issuer"@, Jx::Str(c.issuer)),
                (
                    "tags"@,
                    match m.tags {
                        Some(t) => strarr_jx(t),
                        None => Jx::Null,
                    },
                ),
                ("name"@, opt_str_jx(m.name)),
                ("version"@, opt_str_jx(m.version)),
                ("revision"@, opt_u64_jx(m.revision)),
                ("not_before_human"@, Jx::Str(human_time(c.not_before))),
                ("expires_human"@, Jx::Str(human_time(c.expires))),
            ],
        ),
        None => Jx::Obj(
            seq![
                ("issuer"@, Jx::Str(c.issuer)),
                ("not_before_human"@, Jx::Str(human_time(c.not_before))),
                ("expires_human"@, Jx::Str(human_time(c.expires))),
            ],
        ),
    }
}

fn format_component_claims(claims: &Claims) -> (r: JVal)
    ensures
        r.jx() == component_claims_jx(claims.deep_view()),
{
    let mut fields: Vec<(String, JVal)> = Vec::new();
    match &claims.metadata {
        Some(m) => {
            fields.push((jstr("call_alias"), opt_str_jval(&m.call_alias)));
            fields.push((jstr("issuer"), JVal::Str(claims.issuer.clone())));
            let tags = match &m.tags {
                Some(t) => strarr_jval(t),
                None => JVal::Null,
            };
            fields.push((jstr("tags"), tags));
            fields.push((jstr("name"), opt_str_jval(&m.name)));
            fields.push((jstr("version"), opt_str_jval(&m.version)));
            let revision = match m.revision {
                Some(n) => JVal::UInt(n),
                None => JVal::Null,
            };
            fields.push((jstr("revision"), revision));
            fields.push((jstr("not_before_human"), JVal::Str(human_time_str(&claims.not_before))));
            fields.push((jstr("expires_human"), JVal::Str(human_time_str(&claims.expires))));
        },
        None => {
            fields.push((jstr("issuer"), JVal::Str(claims.issuer.clone())));
            fields.push((jstr("not_before_human"), JVal::Str(human_time_str(&claims.not_before))));
            fields.push((jstr("expires_human"), JVal::Str(human_time_str(&claims.expires))));
        },
    }
    proof {
        lemma_obj_jx(fields);
        assert(fields.deep_view() =~= component_claims_jx(claims.deep_view())->Obj_0);
    }
    JVal::Obj(fields)
}

/// The payload of `component_scaled`: the component, its desired instance
/// count, the image it runs, the emitting host, and the claims where known.
pub open spec fn component_scaled_data(
    claims: Option<ClaimsX>,
    annotations: Seq<(Seq<char>, Seq<char>)>,
    host_id: Seq<char>,
    max_instances: u32,
    image_ref: Seq<char>,
    component_id: Seq<char>,
) -> Jx {
    match claims {
        Some(c) => Jx::Obj(
            seq![
                ("public_key"@, Jx::Str(c.subject)),
                ("claims"@, component_claims_jx(c)),
                ("annotations"@, Jx::Obj(strmap_jx(annotations))),
                ("host_id"@, Jx::Str(host_id)),
                ("image_ref"@, Jx::Str(image_ref)),
                ("max_instances"@, Jx::UInt(max_instances as u64)),
                ("component_id"@, Jx::Str(component_id)),
            ],
        ),
        None => Jx::Obj(
            seq![
                ("annotations"@, Jx::Obj(strmap_jx(annotations))),
                ("host_id"@, Jx::Str(host_id)),
                ("image_ref"@, Jx::Str(image_ref)),
                ("max_instances"@, Jx::UInt(max_instances as u64)),
                ("component_id"@, Jx::Str(component_id)),
            ],
        ),
    }
}

pub fn component_scaled(
    claims: Option<&Claims>,
    annotations: &Vec<(String, String)>,
    host_id: &String,
    max_instances: u32,
    image_ref: &String,
    component_id: &String,
) -> (r: JVal)
    ensures
        r.jx() == component_scaled_data(
            claims.deep_view(),
            annotations.deep_view(),
            host_id@,
            max_instances,
            image_ref@,
            component_id@,
        ),
{
    let mut fields: Vec<(String, JVal)> = Vec::new();
    if let Some(c) = claims {
        fields.push((jstr("public_key"), JVal::Str(c.subject.clone())));
        fields.push((jstr("claims"), format_component_claims(c)));
    }
    fields.push((jstr("annotations"), strmap_jval(annotations)));
    fields.push((jstr("host_id"), JVal::Str(host_id.clone())));
    fields.push((jstr("image_ref"), JVal::Str(image_ref.clone())));
    fields.push((jstr("max_instances"), JVal::UInt(max_instances as u64)));
    fields.push((jstr("component_id"), JVal::Str(component_id.clone())));
    proof {
        lemma_obj_jx(fields);
        assert(fields.deep_view() =~= component_scaled_data(
            claims.deep_view(),
            annotations.deep_view(),
            host_id@,
            max_instances,
            image_ref@,
            component_id@,
        )->Obj_0);
    }
    JVal::Obj(fields)
}

/// The payload of `component_scale_failed`: like `component_scaled`, with the
/// failure's message under `error`.
pub open spec fn component_scale_failed_data(
    claims: Option<ClaimsX>,
    annotations: Seq<(Seq<char>, Seq<char>)>,
    host_id: Seq<char>,
    image_ref: Seq<char>,
    component_id: Seq<char>,
    max_instances: u32,
    error: Seq<char>,
) -> Jx {
    match claims {
        Some(c) => Jx::Obj(
            seq![
                ("public_key"@, Jx::Str(c.subject)),
                ("component_id"@, Jx::Str(component_id)),
                ("annotations"@, Jx::Obj(strmap_jx(annotations))),
                ("host_id"@, Jx::Str(host_id)),
                ("image_ref"@, Jx::Str(image_ref)),
                ("max_instances"@, Jx::UInt(max_instances as u64)),
                ("error"@, Jx::Str(error)),
            ],
        ),
        None => Jx::Obj(
            seq![
                ("annotations"@, Jx::Obj(strmap_jx(annotations))),
                ("component_id"@, Jx::Str(component_id)),
                ("host_id"@, Jx::Str(host_id)),
                ("image_ref"@, Jx::Str(image_ref)),
                ("max_instances"@, Jx::UInt(max_instances as u64)),
                ("error"@, Jx::Str(error)),
            ],
        ),
    }
}

pub fn component_scale_failed(
    claims: Option<&Claims>,
    annotations: &Vec<(String, String)>,
    host_id: &String,
    image_ref: &String,
    component_id: &String,
    max_instances: u32,
    error: &String,
) -> (r: JVal)
    ensures
        r.jx() == component_scale_failed_data(
            claims.deep_view(),
            annotations.deep_view(),
            host_id@,
            image_ref@,
            component_id@,
            max_instances,
            error@,
        ),
{
    let mut fields: Vec<(String, JVal)> = Vec::new();
    match claims {
        Some(c) => {
            fields.push((jstr("public_key"), JVal::Str(c.subject.clone())));
            fields.push((jstr("component_id"), JVal::Str(component_id.clone())));
            fields.push((jstr("annotations"), strmap_jval(annotations)));
        },
        None => {
            fields.push((jstr("annotations"), strmap_jval(annotations)));
            fields.push((jstr("component_id"), JVal::Str(component_id.clone())));
        },
    }
    fields.push((jstr("host_id"), JVal::Str(host_id.clone())));
    fields.push((jstr("image_ref"), JVal::Str(image_ref.clone())));
    fields.push((jstr("max_instances"), JVal::UInt(max_instances as u64)));
    fields.push((jstr("error"), JVal::Str(error.clone())));
    proof {
        lemma_obj_jx(fields);
        assert(fields.deep_view() =~= component_scale_failed_data(
            claims.deep_view(),
            annotations.deep_view(),
            host_id@,
            image_ref@,
            component_id@,
            max_instances,
            error@,
        )->Obj_0);
    }
    JVal::Obj(fields)
}

/// The payload of `linkdef_set` and the base of `linkdef_set_failed`: the full
/// link that was put.
pub open spec fn linkdef_set_data(l: crate::types::LinkX) -> Jx {
    Jx::Obj(
        seq![
            ("source_id"@, Jx::Str(l.source_id)),
            ("target"@, Jx::Str(l.target)),
            ("name"@, Jx::Str(l.name)),
            ("wit_namespace"@, Jx::Str(l.wit_namespace)),
            ("wit_package"@, Jx::Str(l.wit_package)),
            ("interfaces"@, strarr_jx(l.interfaces)),
            ("source_config"@, strarr_jx(l.source_config)),
            ("target_config"@, strarr_jx(l.target_config)),
        ],
    )
}

fn linkdef_fields(l: &crate::types::Link) -> (r: Vec<(String, JVal)>)
    ensures
        r.deep_view() == linkdef_set_data(l.deep_view())->Obj_0,
{
    let mut fields: Vec<(String, JVal)> = Vec::new();
    fields.push((jstr("source_id"), JVal::Str(l.source_id.clone())));
    fields.push((jstr("target"), JVal::Str(l.target.clone())));
    fields.push((jstr("name"), JVal::Str(l.name.clone())));
    fields.push((jstr("wit_namespace"), JVal::Str(l.wit_namespace.clone())));
    fields.push((jstr("wit_package"), JVal::Str(l.wit_package.clone())));
    fields.push((jstr("interfaces"), strarr_jval(&l.interfaces)));
    fields.push((jstr("source_config"), strarr_jval(&l.source_config)));
    fields.push((jstr("target_config"), strarr_jval(&l.target_config)));
    proof {
        assert(fields.deep_view() =~= linkdef_set_data(l.deep_view())->Obj_0);
    }
    fields
}

pub fn linkdef_set(l: &crate::types::Link) -> (r: JVal)
    ensures
        r.jx() == linkdef_set_data(l.deep_view()),
{
    let fields = linkdef_fields(l);
    proof {
        lemma_obj_jx(fields);
        assert(Jx::Obj(fields.deep_view()) =~~= linkdef_set_data(l.deep_view()));
    }
    JVal::Obj(fields)
}

/// The payload of `linkdef_set_failed`: the link and the failure's message.
pub open spec fn linkdef_set_failed_data(l: crate::types::LinkX, error: Seq<char>) -> Jx {
    Jx::Obj(linkdef_set_data(l)->Obj_0.push(("error"@, Jx::Str(error))))
}

pub fn linkdef_set_failed(l: &crate::types::Link, error: &String) -> (r: JVal)
    ensures
        r.jx() == linkdef_set_failed_data(l.deep_view(), error@),
{
    let mut fields = linkdef_fields(l);
    let ghost before = fields.deep_view();
    fields.push((jstr("error"), JVal::Str(error.clone())));
    proof {
        lemma_obj_jx(fields);
        assert(fields.deep_view() =~= before.push(("error"@, Jx::Str(error@))));
    }
    JVal::Obj(fields)
}

/// The payload of `linkdef_deleted`. The target and the interfaces are known
/// only where the link existed; where it did not, the event degrades to the
/// identifying fields alone.
pub open spec fn linkdef_deleted_data(
    source_id: Seq<char>,
    target: Option<Seq<char>>,
    name: Seq<char>,
    wit_namespace: Seq<char>,
    wit_package: Seq<char>,
    interfaces: Option<Seq<Seq<char>>>,
) -> Jx {
    if target is Some && interfaces is Some {
        Jx::Obj(
            seq![
                ("source_id"@, Jx::Str(source_id)),
                ("target"@, Jx::Str(target->0)),
                ("name"@, Jx::Str(name)),
                ("wit_namespace"@, Jx::Str(wit_namespace)),
                ("wit_package"@, Jx::Str(wit_package)),
                ("interfaces"@, strarr_jx(interfaces->0)),
            ],
        )
    } else {
        Jx::Obj(
            seq![
                ("source_id"@, Jx::Str(source_id)),
                ("name"@, Jx::Str(name)),
                ("wit_namespace"@, Jx::Str(wit_namespace)),
                ("wit_package"@, Jx::Str(wit_package)),
            ],
        )
    }
}

pub fn linkdef_deleted(
    source_id: &String,
    target: Option<&String>,
    name: &String,
    wit_namespace: &String,
    wit_package: &String,
    interfaces: Option<&Vec<String>>,
) -> (r: JVal)
    ensures
        r.jx() == linkdef_deleted_data(
            source_id@,
            target.deep_view(),
            name@,
            wit_namespace@,
            wit_package@,
            interfaces.deep_view(),
        ),
{
    let mut fields: Vec<(String, JVal)> = Vec::new();
    match (target, interfaces) {
        (Some(t), Some(ifs)) => {
            fields.push((jstr("source_id"), JVal::Str(source_id.clone())));
            fields.push((jstr("target"), JVal::Str(t.clone())));
            fields.push((jstr("name"), JVal::Str(name.clone())));
            fields.push((jstr("wit_namespace"), JVal::Str(wit_namespace.clone())));
            fields.push((jstr("wit_package"), JVal::Str(wit_package.clone())));
            fields.push((jstr("interfaces"), strarr_jval(ifs)));
        },
        _ => {
            fields.push((jstr("source_id"), JVal::Str(source_id.clone())));
            fields.push((jstr("name"), JVal::Str(name.clone())));
            fields.push((jstr("wit_namespace"), JVal::Str(wit_namespace.clone())));
            fields.push((jstr("wit_package"), JVal::Str(wit_package.clone())));
        },
    }
    proof {
        lemma_obj_jx(fields);
        assert(fields.deep_view() =~= linkdef_deleted_data(
            source_id@,
            target.deep_view(),
            name@,
            wit_namespace@,
            wit_package@,
            interfaces.deep_view(),
        )->Obj_0);
    }
    JVal::Obj(fields)
}

/// The claims object inside `provider_started`. Tags are absent from provider
/// claims on the wire, so the field is always null.
pub open spec fn provider_claims_jx(c: ClaimsX) -> Jx {
    Jx::Obj(
        seq![
            ("issuer"@, Jx::Str(c.issuer)),
            ("tags"@, Jx::Null),
            (
                "name"@,
                match c.metadata {
                    Some(m) => opt_str_jx(m.name),
                    None => Jx::Null,
                },
            ),
            (
                "version"@,
                match c.metadata {
                    Some(m) => opt_str_jx(m.version),
                    None => Jx::Null,
                },
            ),
            ("not_before_human"@, Jx::Str(human_time(c.not_before))),
            ("expires_human"@, Jx::Str(human_time(c.expires))),
        ],
    )
}

/// The payload of `provider_started`. The `instance_id`, `public_key` and
/// `link_name` fields repeat older identifiers that consumers still read.
pub open spec fn provider_started_data(
    claims: Option<ClaimsX>,
    annotations: Seq<(Seq<char>, Seq<char>)>,
    host_id: Seq<char>,
    image_ref: Seq<char>,
    provider_id: Seq<char>,
) -> Jx {
    match claims {
        Some(c) => Jx::Obj(
            seq![
                ("host_id"@, Jx::Str(host_id)),
                ("image_ref"@, Jx::Str(image_ref)),
                ("provider_id"@, Jx::Str(provider_id)),
                ("annotations"@, Jx::Obj(strmap_jx(annotations))),
                ("claims"@, provider_claims_jx(c)),
                ("instance_id"@, Jx::Str(provider_id)),
                ("public_key"@, Jx::Str(provider_id)),
                ("link_name"@, Jx::Str("default"@)),
            ],
        ),
        None => Jx::Obj(
            seq![
                ("host_id"@, Jx::Str(host_id)),
                ("image_ref"@, Jx::Str(image_ref)),
                ("provider_id"@, Jx::Str(provider_id)),
                ("annotations"@, Jx::Obj(strmap_jx(annotations))),
            ],
        ),
    }
}

pub fn provider_started(
    claims: Option<&Claims>,
    annotations: &Vec<(String, String)>,
    host_id: &String,
    image_ref: &String,
    provider_id: &String,
) -> (r: JVal)
    ensures
        r.jx() == provider_started_data(
            claims.deep_view(),
            annotations.deep_view(),
            host_id@,
            image_ref@,
            provider_id@,
        ),
{
    let mut fields: Vec<(String, JVal)> = Vec::new();
    fields.push((jstr("host_id"), JVal::Str(host_id.clone())));
    fields.push((jstr("image_ref"), JVal::Str(image_ref.clone())));
    fields.push((jstr("provider_id"), JVal::Str(provider_id.clone())));
    fields.push((jstr("annotations"), strmap_jval(annotations)));
    if let Some(c) = claims {
        let mut cf: Vec<(String, JVal)> = Vec::new();
        cf.push((jstr("issuer"), JVal::Str(c.issuer.clone())));
        cf.push((jstr("tags"), JVal::Null));
        let name = match &c.metadata {
            Some(m) => opt_str_jval(&m.name),
            None => JVal::Null,
        };
        cf.push((jstr("name"), name));
        let version = match &c.metadata {
            Some(m) => opt_str_jval(&m.version),
            None => JVal::Null,
        };
        cf.push((jstr("version"), version));
        cf.push((jstr("not_before_human"), JVal::Str(human_time_str(&c.not_before))));
        cf.push((jstr("expires_human"), JVal::Str(human_time_str(&c.expires))));
        proof {
            lemma_obj_jx(cf);
            assert(cf.deep_view() =~= provider_claims_jx(c.deep_view())->Obj_0);
        }
        fields.push((jstr("claims"), JVal::Obj(cf)));
        fields.push((jstr("instance_id"), JVal::Str(provider_id.clone())));
        fields.push((jstr("public_key"), JVal::Str(provider_id.clone())));
        fields.push((jstr("link_name"), JVal::Str(jstr("default"))));
    }
    proof {
        lemma_obj_jx(fields);
        assert(fields.deep_view() =~= provider_started_data(
            claims.deep_view(),
            annotations.deep_view(),
            host_id@,
            image_ref@,
            provider_id@,
        )->Obj_0);
    }
    JVal::Obj(fields)
}

/// The payload of `provider_start_failed`.
pub open spec fn provider_start_failed_data(
    provider_ref: Seq<char>,
    provider_id: Seq<char>,
    host_id: Seq<char>,
    error: Seq<char>,
) -> Jx {
    Jx::Obj(
        seq![
            ("provider_ref"@, Jx::Str(provider_ref)),
            ("provider_id"@, Jx::Str(provider_id)),
            ("host_id"@, Jx::Str(host_id)),
            ("error"@, Jx::Str(error)),
            ("link_name"@, Jx::Str("default"@)),
        ],
    )
}

pub fn provider_start_failed(
    provider_ref: &String,
    provider_id: &String,
    host_id: &String,
    error: &String,
) -> (r: JVal)
    ensures
        r.jx() == provider_start_failed_data(provider_ref@, provider_id@, host_id@, error@),
{
    let mut fields: Vec<(String, JVal)> = Vec::new();
    fields.push((jstr("provider_ref"), JVal::Str(provider_ref.clone())));
    fields.push((jstr("provider_id"), JVal::Str(provider_id.clone())));
    fields.push((jstr("host_id"), JVal::Str(host_id.clone())));
    fields.push((jstr("error"), JVal::Str(error.clone())));
    fields.push((jstr("link_name"), JVal::Str(jstr("default"))));
    proof {
        lemma_obj_jx(fields);
        assert(fields.deep_view() =~= provider_start_failed_data(
            provider_ref@,
            provider_id@,
            host_id@,
            error@,
        )->Obj_0);
    }
    JVal::Obj(fields)
}

/// The payload of `provider_stopped`.
pub open spec fn provider_stopped_data(
    annotations: Seq<(Seq<char>, Seq<char>)>,
    host_id: Seq<char>,
    provider_id: Seq<char>,
    reason: Seq<char>,
) -> Jx {
    Jx::Obj(
        seq![
            ("host_id"@, Jx::Str(host_id)),
            ("provider_id"@, Jx::Str(provider_id)),
            ("annotations"@, Jx::Obj(strmap_jx(annotations))),
            ("reason"@, Jx::Str(reason)),
            ("instance_id"@, Jx::Str(provider_id)),
            ("public_key"@, Jx::Str(provider_id)),
            ("link_name"@, Jx::Str("default"@)),
        ],
    )
}

pub fn provider_stopped(
    annotations: &Vec<(String, String)>,
    host_id: &String,
    provider_id: &String,
    reason: &String,
) -> (r: JVal)
    ensures
        r.jx() == provider_stopped_data(annotations.deep_view(), host_id@, provider_id@, reason@),
{
    let mut fields: Vec<(String, JVal)> = Vec::new();
    fields.push((jstr("host_id"), JVal::Str(host_id.clone())));
    fields.push((jstr("provider_id"), JVal::Str(provider_id.clone())));
    fields.push((jstr("annotations"), strmap_jval(annotations)));
    fields.push((jstr("reason"), JVal::Str(reason.clone())));
    fields.push((jstr("instance_id"), JVal::Str(provider_id.clone())));
    fields.push((jstr("public_key"), JVal::Str(provider_id.clone())));
    fields.push((jstr("link_name"), JVal::Str(jstr("default"))));
    proof {
        lemma_obj_jx(fields);
        assert(fields.deep_view() =~= provider_stopped_data(
            annotations.deep_view(),
            host_id@,
            provider_id@,
            reason@,
        )->Obj_0);
    }
    JVal::Obj(fields)
}

/// The payload of `provider_health_check`.
pub open spec fn provider_health_check_data(host_id: Seq<char>, provider_id: Seq<char>) -> Jx {
    Jx::Obj(seq![("host_id"@, Jx::Str(host_id)), ("provider_id"@, Jx::Str(provider_id))])
}

pub fn provider_health_check(host_id: &String, provider_id: &String) -> (r: JVal)
    ensures
        r.jx() == provider_health_check_data(host_id@, provider_id@),
{
    let mut fields: Vec<(String, JVal)> = Vec::new();
    fields.push((jstr("host_id"), JVal::Str(host_id.clone())));
    fields.push((jstr("provider_id"), JVal::Str(provider_id.clone())));
    proof {
        lemma_obj_jx(fields);
        assert(fields.deep_view() =~= provider_health_check_data(host_id@, provider_id@)->Obj_0);
    }
    JVal::Obj(fields)
}

/// The payload of `config_set` and `config_deleted`: the configuration name.
pub open spec fn config_event_data(config_name: Seq<char>) -> Jx {
    Jx::Obj(seq![("config_name"@, Jx::Str(config_name))])
}

pub fn config_set(config_name: &String) -> (r: JVal)
    ensures
        r.jx() == config_event_data(config_name@),
{
    let mut fields: Vec<(String, JVal)> = Vec::new();
    fields.push((jstr("config_name"), JVal::Str(config_name.clone())));
    proof {
        lemma_obj_jx(fields);
        assert(fields.deep_view() =~= config_event_data(config_name@)->Obj_0);
    }
    JVal::Obj(fields)
}

pub fn config_deleted(config_name: &String) -> (r: JVal)
    ensures
        r.jx() == config_event_data(config_name@),
{
    config_set(config_name)
}

/// The payload of `labels_changed`: the host and its full label map.
pub open spec fn labels_changed_data(
    host_id: Seq<char>,
    labels: Seq<(Seq<char>, Seq<char>)>,
) -> Jx {
    Jx::Obj(
        seq![("host_id"@, Jx::Str(host_id)), ("labels"@, Jx::Obj(strmap_jx(labels)))],
    )
}

pub fn labels_changed(host_id: &String, labels: &Vec<(String, String)>) -> (r: JVal)
    ensures
        r.jx() == labels_changed_data(host_id@, labels.deep_view()),
{
    let mut fields: Vec<(String, JVal)> = Vec::new();
    fields.push((jstr("host_id"), JVal::Str(host_id.clone())));
    fields.push((jstr("labels"), strmap_jval(labels)));
    proof {
        lemma_obj_jx(fields);
        assert(fields.deep_view() =~= labels_changed_data(host_id@, labels.deep_view())->Obj_0);
    }
    JVal::Obj(fields)
}

/// The CloudEvents envelope an event is published in: version 1.0, the host as
/// the source, the event's kind under the lattice type prefix, and the payload
/// under `data`.
pub open spec fn event_envelope_jx(
    host_id: Seq<char>,
    event_name: Seq<char>,
    event_id: Seq<char>,
    data: Jx,
) -> Jx {
    Jx::Obj(
        seq![
            ("specversion"@, Jx::Str("1.0"@)),
            ("id"@, Jx::Str(event_id)),
            ("source"@, Jx::Str(host_id)),
            ("type"@, Jx::Str("com.wasmcloud.lattice."@ + event_name)),
            ("datacontenttype"@, Jx::Str("application/json"@)),
            ("data"@, data),
        ],
    )
}

/// Wraps an event payload in its CloudEvents envelope. The caller supplies the
/// envelope's unique identifier.
pub fn event_envelope(host_id: &String, event_name: &String, event_id: &String, data: JVal) -> (r:
    JVal)
    ensures
        r.jx() == event_envelope_jx(host_id@, event_name@, event_id@, data.jx()),
{
    let mut fields: Vec<(String, JVal)> = Vec::new();
    fields.push((jstr("specversion"), JVal::Str(jstr("1.0"))));
    fields.push((jstr("id"), JVal::Str(event_id.clone())));
    fields.push((jstr("source"), JVal::Str(host_id.clone())));
    fields.push((jstr("type"), JVal::Str(jstr("com.wasmcloud.lattice.").concat(
        event_name.as_str(),
    ))));
    fields.push((jstr("datacontenttype"), JVal::Str(jstr("application/json"))));
    let ghost data_jx = data.jx();
    fields.push((jstr("data"), data));
    proof {
        lemma_obj_jx(fields);
        assert(fields.deep_view() =~= event_envelope_jx(
            host_id@,
            event_name@,
            event_id@,
            data_jx,
        )->Obj_0);
    }
    JVal::Obj(fields)
}

/// The subject an event of the given kind is published on.
pub open spec fn event_subject_chars(event_name: Seq<char>) -> Seq<char> {
    "lifecycle."@ + event_name
}

/// Builds the subject an event is published on.
pub fn event_subject(event_name: &String) -> (r: String)
    ensures
        r@ == event_subject_chars(event_name@),
{
    jstr("lifecycle.").concat(event_name.as_str())
}

/// Publishes lifecycle events. A transport implements this over its bus; the
/// default publisher drops them.
pub trait EventPublisher {
    /// Sends the named event with its payload; the error text names what went
    /// wrong on the transport.
    fn publish_event(&self, event_name: &String, data: JVal) -> Result<(), String>;
}

/// The publisher used where none is configured: it accepts and drops every
/// event.
pub struct DefaultEventPublisher {}

impl DefaultEventPublisher {
    /// A fresh no-op publisher.
    pub fn new() -> (r: DefaultEventPublisher) {
        DefaultEventPublisher {  }
    }
}

impl EventPublisher for DefaultEventPublisher {
    fn publish_event(&self, event_name: &String, data: JVal) -> (r: Result<(), String>)
        ensures
            r is Ok,
    {
        Ok(())
    }
}

} // verus!
