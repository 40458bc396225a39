//! Decoded control-interface commands.
//!
//! Each request body is a JSON object; this module turns the parsed value into
//! a plain command struct, or the message a protocol-error reply carries. Every
//! decoder pins exactly which values decode and what they decode to.

use vstd::prelude::*;

use crate::json::{
    jobj_get,
    jobj_get_str,
    jobj_get_u64,
    jstr,
    jval_strarr,
    jval_strmap,
    jx_get_str,
    jx_get_u64,
    jx_obj_get,
    strarr_fold,
    strmap_fold,
    JVal,
    Jx,
};
use crate::kvlist::{kv_insert, kvl_map, kvl_unique};

verus! {

/// Whether the optional string-map field decodes: absent, or an object of
/// strings.
pub open spec fn opt_strmap_ok(f: Seq<(Seq<char>, Jx)>, name: Seq<char>) -> bool {
    match jx_obj_get(f, name) {
        Some(a) => a is Obj && strmap_fold(a->Obj_0) is Some,
        None => true,
    }
}

/// The map the optional string-map field holds; empty where absent.
pub open spec fn opt_strmap_val(f: Seq<(Seq<char>, Jx)>, name: Seq<char>) -> Map<
    Seq<char>,
    Seq<char>,
> {
    match jx_obj_get(f, name) {
        Some(a) => strmap_fold(a->Obj_0)->0,
        None => Map::empty(),
    }
}

/// Reads an optional string-map field.
pub fn get_opt_strmap(fields: &Vec<(String, JVal)>, name: &String) -> (r: Option<
    Vec<(String, String)>,
>)
    ensures
        match r {
            Some(m) => opt_strmap_ok(fields.deep_view(), name@) && kvl_unique(m.deep_view())
                && kvl_map(m.deep_view()) == opt_strmap_val(fields.deep_view(), name@),
            None => !opt_strmap_ok(fields.deep_view(), name@),
        },
{
    match jobj_get(fields, name) {
        Some(v) => jval_strmap(v),
        None => Some(Vec::new()),
    }
}

/// Whether the optional string-list field decodes: absent, or an array of
/// strings.
pub open spec fn opt_strarr_ok(f: Seq<(Seq<char>, Jx)>, name: Seq<char>) -> bool {
    match jx_obj_get(f, name) {
        Some(a) => a is Arr && strarr_fold(a->Arr_0) is Some,
        None => true,
    }
}

/// The strings the optional string-list field holds; empty where absent.
pub open spec fn opt_strarr_val(f: Seq<(Seq<char>, Jx)>, name: Seq<char>) -> Seq<Seq<char>> {
    match jx_obj_get(f, name) {
        Some(a) => strarr_fold(a->Arr_0)->0,
        None => Seq::empty(),
    }
}

/// Reads an optional string-list field.
pub fn get_opt_strarr(fields: &Vec<(String, JVal)>, name: &String) -> (r: Option<Vec<String>>)
    ensures
        match r {
            Some(a) => opt_strarr_ok(fields.deep_view(), name@) && a.deep_view() == opt_strarr_val(
                fields.deep_view(),
                name@,
            ),
            None => !opt_strarr_ok(fields.deep_view(), name@),
        },
{
    match jobj_get(fields, name) {
        Some(v) => jval_strarr(v),
        None => {
            let a: Vec<String> = Vec::new();
            proof {
                assert(a.deep_view() =~= Seq::<Seq<char>>::empty());
            }
            Some(a)
        },
    }
}

/// A request to scale a component to a desired instance count.
pub struct ScaleCommand {
    pub component_id: String,
    pub reference: String,
    pub max_instances: u32,
    pub annotations: Vec<(String, String)>,
}

/// View of [`ScaleCommand`].
pub struct ScaleCommandX {
    pub component_id: Seq<char>,
    pub reference: Seq<char>,
    pub max_instances: u32,
    pub annotations: Seq<(Seq<char>, Seq<char>)>,
}

impl DeepView for ScaleCommand {
    type V = ScaleCommandX;

    open spec fn deep_view(&self) -> ScaleCommandX {
        ScaleCommandX {
            component_id: self.component_id@,
            reference: self.reference@,
            max_instances: self.max_instances,
            annotations: self.annotations.deep_view(),
        }
    }
}

/// Whether a scale request body decodes: an object with a string
/// `component_id`, a string `reference`, a `max_instances` that fits a `u32`,
/// and annotations that are absent or a string map.
pub open spec fn scale_decodable(j: Jx) -> bool {
    &&& j is Obj
    &&& jx_get_str(j->Obj_0, "component_id"@) is Some
    &&& jx_get_str(j->Obj_0, "reference"@) is Some
    &&& match jx_get_u64(j->Obj_0, "max_instances"@) {
        Some(n) => n <= u32::MAX,
        None => false,
    }
    &&& opt_strmap_ok(j->Obj_0, "annotations"@)
}

/// Decodes a scale request body.
pub fn decode_scale(payload: &JVal) -> (r: Result<ScaleCommand, String>)
    ensures
        match r {
            Ok(c) => scale_decodable(payload.jx()) && {
                let f = payload.jx()->Obj_0;
                &&& jx_get_str(f, "component_id"@) == Some(c.component_id@)
                &&& jx_get_str(f, "reference"@) == Some(c.reference@)
                &&& jx_get_u64(f, "max_instances"@) == Some(c.max_instances as u64)
                &&& kvl_unique(c.annotations.deep_view())
                &&& kvl_map(c.annotations.deep_view()) == opt_strmap_val(f, "annotations"@)
            },
            Err(_) => !scale_decodable(payload.jx()),
        },
{
    let fields = match payload.as_obj() {
        Some(fields) => fields,
        None => {
            return Err(jstr("scale request is not a JSON object"));
        },
    };
    let component_id = match jobj_get_str(fields, &jstr("component_id")) {
        Some(s) => s.clone(),
        None => {
            return Err(jstr("scale request lacks a component_id"));
        },
    };
    let reference = match jobj_get_str(fields, &jstr("reference")) {
        Some(s) => s.clone(),
        None => {
            return Err(jstr("scale request lacks a reference"));
        },
    };
    let max_instances = match jobj_get_u64(fields, &jstr("max_instances")) {
        Some(n) => {
            if n > u32::MAX as u64 {
                return Err(jstr("max_instances does not fit a 32-bit count"));
            }
            n as u32
        },
        None => {
            return Err(jstr("scale request lacks max_instances"));
        },
    };
    let annotations = match get_opt_strmap(fields, &jstr("annotations")) {
        Some(m) => m,
        None => {
            return Err(jstr("annotations must map strings to strings"));
        },
    };
    Ok(ScaleCommand { component_id, reference, max_instances, annotations })
}

/// Whether the optional string field decodes: absent or a string.
pub open spec fn opt_str_ok(f: Seq<(Seq<char>, Jx)>, name: Seq<char>) -> bool {
    match jx_obj_get(f, name) {
        Some(v) => v is Str,
        None => true,
    }
}

/// The optional string field's characters, where present.
pub open spec fn opt_str_val(f: Seq<(Seq<char>, Jx)>, name: Seq<char>) -> Option<Seq<char>> {
    match jx_obj_get(f, name) {
        Some(Jx::Str(s)) => Some(s),
        _ => None,
    }
}

/// Reads an optional string field.
pub fn get_opt_str(fields: &Vec<(String, JVal)>, name: &String) -> (r: Result<
    Option<String>,
    (),
>)
    ensures
        match r {
            Ok(v) => opt_str_ok(fields.deep_view(), name@) && v.deep_view() == opt_str_val(
                fields.deep_view(),
                name@,
            ),
            Err(_) => !opt_str_ok(fields.deep_view(), name@),
        },
{
    match jobj_get(fields, name) {
        Some(v) => match v.as_str() {
            Some(s) => Ok(Some(s.clone())),
            None => Err(()),
        },
        None => Ok(None),
    }
}

/// Whether the optional number field decodes: absent or an unsigned number.
pub open spec fn opt_u64_ok(f: Seq<(Seq<char>, Jx)>, name: Seq<char>) -> bool {
    match jx_obj_get(f, name) {
        Some(v) => v is UInt,
        None => true,
    }
}

/// The optional number field's value, where present.
pub open spec fn opt_u64_val(f: Seq<(Seq<char>, Jx)>, name: Seq<char>) -> Option<u64> {
    match jx_obj_get(f, name) {
        Some(Jx::UInt(n)) => Some(n),
        _ => None,
    }
}

/// Reads an optional number field.
pub fn get_opt_u64(fields: &Vec<(String, JVal)>, name: &String) -> (r: Result<Option<u64>, ()>)
    ensures
        match r {
            Ok(v) => opt_u64_ok(fields.deep_view(), name@) && v == opt_u64_val(
                fields.deep_view(),
                name@,
            ),
            Err(_) => !opt_u64_ok(fields.deep_view(), name@),
        },
{
    match jobj_get(fields, name) {
        Some(v) => match v.as_u64() {
            Some(n) => Ok(Some(n)),
            None => Err(()),
        },
        None => Ok(None),
    }
}

/// A request to update a component's image reference in place.
pub struct UpdateCommand {
    pub component_id: String,
    pub new_reference: String,
    pub annotations: Option<Vec<(String, String)>>,
}

/// View of [`UpdateCommand`].
pub struct UpdateCommandX {
    pub component_id: Seq<char>,
    pub new_reference: Seq<char>,
    pub annotations: Option<Seq<(Seq<char>, Seq<char>)>>,
}

impl DeepView for UpdateCommand {
    type V = UpdateCommandX;

    open spec fn deep_view(&self) -> UpdateCommandX {
        UpdateCommandX {
            component_id: self.component_id@,
            new_reference: self.new_reference@,
            annotations: match &self.annotations {
                Some(m) => Some(m.deep_view()),
                None => None,
            },
        }
    }
}

/// Whether an update request body decodes: an object with a string
/// `component_id`, a string `new_reference`, and annotations that are absent
/// or a string map.
pub open spec fn update_decodable(j: Jx) -> bool {
    &&& j is Obj
    &&& jx_get_str(j->Obj_0, "component_id"@) is Some
    &&& jx_get_str(j->Obj_0, "new_reference"@) is Some
    &&& opt_strmap_ok(j->Obj_0, "annotations"@)
}

/// Decodes an update request body. The annotations are `Some` exactly where
/// the field is present.
pub fn decode_update(payload: &JVal) -> (r: Result<UpdateCommand, String>)
    ensures
        match r {
            Ok(c) => update_decodable(payload.jx()) && {
                let f = payload.jx()->Obj_0;
                &&& jx_get_str(f, "component_id"@) == Some(c.component_id@)
                &&& jx_get_str(f, "new_reference"@) == Some(c.new_reference@)
                &&& (c.annotations is Some <==> jx_obj_get(f, "annotations"@) is Some)
                &&& match c.annotations {
                    Some(m) => kvl_unique(m.deep_view()) && kvl_map(m.deep_view())
                        == opt_strmap_val(f, "annotations"@),
                    None => true,
                }
            },
            Err(_) => !update_decodable(payload.jx()),
        },
{
    let fields = match payload.as_obj() {
        Some(fields) => fields,
        None => {
            return Err(jstr("update request is not a JSON object"));
        },
    };
    let component_id = match jobj_get_str(fields, &jstr("component_id")) {
        Some(s) => s.clone(),
        None => {
            return Err(jstr("update request lacks a component_id"));
        },
    };
    let new_reference = match jobj_get_str(fields, &jstr("new_reference")) {
        Some(s) => s.clone(),
        None => {
            return Err(jstr("update request lacks a new_reference"));
        },
    };
    let annotations = match jobj_get(fields, &jstr("annotations")) {
        Some(v) => match jval_strmap(v) {
            Some(m) => Some(m),
            None => {
                return Err(jstr("annotations must map strings to strings"));
            },
        },
        None => None,
    };
    Ok(UpdateCommand { component_id, new_reference, annotations })
}

/// A request to start a provider on this host.
pub struct StartProviderCommand {
    pub provider_id: String,
    pub provider_ref: String,
    pub annotations: Vec<(String, String)>,
}

/// View of [`StartProviderCommand`].
pub struct StartProviderCommandX {
    pub provider_id: Seq<char>,
    pub provider_ref: Seq<char>,
    pub annotations: Seq<(Seq<char>, Seq<char>)>,
}

impl DeepView for StartProviderCommand {
    type V = StartProviderCommandX;

    open spec fn deep_view(&self) -> StartProviderCommandX {
        StartProviderCommandX {
            provider_id: self.provider_id@,
            provider_ref: self.provider_ref@,
            annotations: self.annotations.deep_view(),
        }
    }
}

/// Whether a start-provider body decodes.
pub open spec fn start_provider_decodable(j: Jx) -> bool {
    &&& j is Obj
    &&& jx_get_str(j->Obj_0, "provider_id"@) is Some
    &&& jx_get_str(j->Obj_0, "provider_ref"@) is Some
    &&& opt_strmap_ok(j->Obj_0, "annotations"@)
}

/// Decodes a start-provider request body.
pub fn decode_start_provider(payload: &JVal) -> (r: Result<StartProviderCommand, String>)
    ensures
        match r {
            Ok(c) => start_provider_decodable(payload.jx()) && {
                let f = payload.jx()->Obj_0;
                &&& jx_get_str(f, "provider_id"@) == Some(c.provider_id@)
                &&& jx_get_str(f, "provider_ref"@) == Some(c.provider_ref@)
                &&& kvl_unique(c.annotations.deep_view())
                &&& kvl_map(c.annotations.deep_view()) == opt_strmap_val(f, "annotations"@)
            },
            Err(_) => !start_provider_decodable(payload.jx()),
        },
{
    let fields = match payload.as_obj() {
        Some(fields) => fields,
        None => {
            return Err(jstr("start request is not a JSON object"));
        },
    };
    let provider_id = match jobj_get_str(fields, &jstr("provider_id")) {
        Some(s) => s.clone(),
        None => {
            return Err(jstr("start request lacks a provider_id"));
        },
    };
    let provider_ref = match jobj_get_str(fields, &jstr("provider_ref")) {
        Some(s) => s.clone(),
        None => {
            return Err(jstr("start request lacks a provider_ref"));
        },
    };
    let annotations = match get_opt_strmap(fields, &jstr("annotations")) {
        Some(m) => m,
        None => {
            return Err(jstr("annotations must map strings to strings"));
        },
    };
    Ok(StartProviderCommand { provider_id, provider_ref, annotations })
}

/// Whether a stop-provider body decodes: an object with a string
/// `provider_id`.
pub open spec fn stop_provider_decodable(j: Jx) -> bool {
    j is Obj && jx_get_str(j->Obj_0, "provider_id"@) is Some
}

/// Decodes a stop-provider request body into the provider to stop.
pub fn decode_stop_provider(payload: &JVal) -> (r: Result<String, String>)
    ensures
        match r {
            Ok(id) => stop_provider_decodable(payload.jx()) && jx_get_str(
                payload.jx()->Obj_0,
                "provider_id"@,
            ) == Some(id@),
            Err(_) => !stop_provider_decodable(payload.jx()),
        },
{
    let fields = match payload.as_obj() {
        Some(fields) => fields,
        None => {
            return Err(jstr("stop request is not a JSON object"));
        },
    };
    match jobj_get_str(fields, &jstr("provider_id")) {
        Some(s) => Ok(s.clone()),
        None => Err(jstr("stop request lacks a provider_id")),
    }
}

/// Whether a stop-host body decodes: an object whose `timeout`, if present, is
/// an unsigned number.
pub open spec fn stop_host_decodable(j: Jx) -> bool {
    j is Obj && opt_u64_ok(j->Obj_0, "timeout"@)
}

/// Decodes a stop-host request body into the optional deadline.
pub fn decode_stop_host(payload: &JVal) -> (r: Result<Option<u64>, String>)
    ensures
        match r {
            Ok(t) => stop_host_decodable(payload.jx()) && t == opt_u64_val(
                payload.jx()->Obj_0,
                "timeout"@,
            ),
            Err(_) => !stop_host_decodable(payload.jx()),
        },
{
    let fields = match payload.as_obj() {
        Some(fields) => fields,
        None => {
            return Err(jstr("stop request is not a JSON object"));
        },
    };
    match get_opt_u64(fields, &jstr("timeout")) {
        Ok(t) => Ok(t),
        Err(_) => Err(jstr("timeout must be an unsigned number")),
    }
}

/// Whether a label-put body decodes: an object with string `key` and `value`.
pub open spec fn label_put_decodable(j: Jx) -> bool {
    j is Obj && jx_get_str(j->Obj_0, "key"@) is Some && jx_get_str(j->Obj_0, "value"@) is Some
}

/// Decodes a label-put request body into the label pair.
pub fn decode_label_put(payload: &JVal) -> (r: Result<(String, String), String>)
    ensures
        match r {
            Ok(kv) => label_put_decodable(payload.jx()) && jx_get_str(payload.jx()->Obj_0, "key"@)
                == Some(kv.0@) && jx_get_str(payload.jx()->Obj_0, "value"@) == Some(kv.1@),
            Err(_) => !label_put_decodable(payload.jx()),
        },
{
    let fields = match payload.as_obj() {
        Some(fields) => fields,
        None => {
            return Err(jstr("label request is not a JSON object"));
        },
    };
    let key = match jobj_get_str(fields, &jstr("key")) {
        Some(s) => s.clone(),
        None => {
            return Err(jstr("label request lacks a key"));
        },
    };
    let value = match jobj_get_str(fields, &jstr("value")) {
        Some(s) => s.clone(),
        None => {
            return Err(jstr("label request lacks a value"));
        },
    };
    Ok((key, value))
}

/// Whether a label-delete body decodes: an object with a string `key`.
pub open spec fn label_del_decodable(j: Jx) -> bool {
    j is Obj && jx_get_str(j->Obj_0, "key"@) is Some
}

/// Decodes a label-delete request body into the label's key.
pub fn decode_label_del(payload: &JVal) -> (r: Result<String, String>)
    ensures
        match r {
            Ok(k) => label_del_decodable(payload.jx()) && jx_get_str(payload.jx()->Obj_0, "key"@)
                == Some(k@),
            Err(_) => !label_del_decodable(payload.jx()),
        },
{
    let fields = match payload.as_obj() {
        Some(fields) => fields,
        None => {
            return Err(jstr("label request is not a JSON object"));
        },
    };
    match jobj_get_str(fields, &jstr("key")) {
        Some(s) => Ok(s.clone()),
        None => Err(jstr("label request lacks a key")),
    }
}

/// Whether a link-put body decodes: string `source_id`, `target`,
/// `wit_namespace` and `wit_package`; an optional string `name`; and optional
/// string lists `interfaces`, `source_config` and `target_config`.
pub open spec fn link_put_decodable(j: Jx) -> bool {
    &&& j is Obj
    &&& jx_get_str(j->Obj_0, "source_id"@) is Some
    &&& jx_get_str(j->Obj_0, "target"@) is Some
    &&& jx_get_str(j->Obj_0, "wit_namespace"@) is Some
    &&& jx_get_str(j->Obj_0, "wit_package"@) is Some
    &&& opt_str_ok(j->Obj_0, "name"@)
    &&& opt_strarr_ok(j->Obj_0, "interfaces"@)
    &&& opt_strarr_ok(j->Obj_0, "source_config"@)
    &&& opt_strarr_ok(j->Obj_0, "target_config"@)
}

/// The link name a body names, or `default` where it names none.
pub open spec fn link_name_val(f: Seq<(Seq<char>, Jx)>) -> Seq<char> {
    match opt_str_val(f, "name"@) {
        Some(s) => s,
        None => "default"@,
    }
}

/// Decodes a link-put request body into the full link.
pub fn decode_link_put(payload: &JVal) -> (r: Result<crate::types::Link, String>)
    ensures
        match r {
            Ok(l) => link_put_decodable(payload.jx()) && {
                let f = payload.jx()->Obj_0;
                &&& jx_get_str(f, "source_id"@) == Some(l.source_id@)
                &&& jx_get_str(f, "target"@) == Some(l.target@)
                &&& jx_get_str(f, "wit_namespace"@) == Some(l.wit_namespace@)
                &&& jx_get_str(f, "wit_package"@) == Some(l.wit_package@)
                &&& l.name@ == link_name_val(f)
                &&& l.interfaces.deep_view() == opt_strarr_val(f, "interfaces"@)
                &&& l.source_config.deep_view() == opt_strarr_val(f, "source_config"@)
                &&& l.target_config.deep_view() == opt_strarr_val(f, "target_config"@)
            },
            Err(_) => !link_put_decodable(payload.jx()),
        },
{
    let fields = match payload.as_obj() {
        Some(fields) => fields,
        None => {
            return Err(jstr("link is not a JSON object"));
        },
    };
    let source_id = match jobj_get_str(fields, &jstr("source_id")) {
        Some(s) => s.clone(),
        None => {
            return Err(jstr("link lacks a source_id"));
        },
    };
    let target = match jobj_get_str(fields, &jstr("target")) {
        Some(s) => s.clone(),
        None => {
            return Err(jstr("link lacks a target"));
        },
    };
    let wit_namespace = match jobj_get_str(fields, &jstr("wit_namespace")) {
        Some(s) => s.clone(),
        None => {
            return Err(jstr("link lacks a wit_namespace"));
        },
    };
    let wit_package = match jobj_get_str(fields, &jstr("wit_package")) {
        Some(s) => s.clone(),
        None => {
            return Err(jstr("link lacks a wit_package"));
        },
    };
    let name = match get_opt_str(fields, &jstr("name")) {
        Ok(Some(s)) => s,
        Ok(None) => jstr("default"),
        Err(_) => {
            return Err(jstr("link name must be a string"));
        },
    };
    let interfaces = match get_opt_strarr(fields, &jstr("interfaces")) {
        Some(a) => a,
        None => {
            return Err(jstr("interfaces must be a list of strings"));
        },
    };
    let source_config = match get_opt_strarr(fields, &jstr("source_config")) {
        Some(a) => a,
        None => {
            return Err(jstr("source_config must be a list of strings"));
        },
    };
    let target_config = match get_opt_strarr(fields, &jstr("target_config")) {
        Some(a) => a,
        None => {
            return Err(jstr("target_config must be a list of strings"));
        },
    };
    Ok(
        crate::types::Link {
            source_id,
            target,
            name,
            wit_namespace,
            wit_package,
            interfaces,
            source_config,
            target_config,
        },
    )
}

/// Whether a link-delete body decodes: string `source_id`, `wit_namespace` and
/// `wit_package`, and an optional string `name`.
pub open spec fn link_del_decodable(j: Jx) -> bool {
    &&& j is Obj
    &&& jx_get_str(j->Obj_0, "source_id"@) is Some
    &&& jx_get_str(j->Obj_0, "wit_namespace"@) is Some
    &&& jx_get_str(j->Obj_0, "wit_package"@) is Some
    &&& opt_str_ok(j->Obj_0, "name"@)
}

/// Decodes a link-delete request body into the link's key.
pub fn decode_link_del(payload: &JVal) -> (r: Result<crate::types::LinkKey, String>)
    ensures
        match r {
            Ok(k) => link_del_decodable(payload.jx()) && {
                let f = payload.jx()->Obj_0;
                &&& jx_get_str(f, "source_id"@) == Some(k.source_id@)
                &&& jx_get_str(f, "wit_namespace"@) == Some(k.wit_namespace@)
                &&& jx_get_str(f, "wit_package"@) == Some(k.wit_package@)
                &&& k.name@ == link_name_val(f)
            },
            Err(_) => !link_del_decodable(payload.jx()),
        },
{
    let fields = match payload.as_obj() {
        Some(fields) => fields,
        None => {
            return Err(jstr("link is not a JSON object"));
        },
    };
    let source_id = match jobj_get_str(fields, &jstr("source_id")) {
        Some(s) => s.clone(),
        None => {
            return Err(jstr("link lacks a source_id"));
        },
    };
    let wit_namespace = match jobj_get_str(fields, &jstr("wit_namespace")) {
        Some(s) => s.clone(),
        None => {
            return Err(jstr("link lacks a wit_namespace"));
        },
    };
    let wit_package = match jobj_get_str(fields, &jstr("wit_package")) {
        Some(s) => s.clone(),
        None => {
            return Err(jstr("link lacks a wit_package"));
        },
    };
    let name = match get_opt_str(fields, &jstr("name")) {
        Ok(Some(s)) => s,
        Ok(None) => jstr("default"),
        Err(_) => {
            return Err(jstr("link name must be a string"));
        },
    };
    Ok(crate::types::LinkKey { source_id, name, wit_namespace, wit_package })
}

/// A request broadcast to every host, asking who can run a workload under the
/// given label constraints.
pub struct AuctionCommand {
    pub reference: String,
    pub subject_id: String,
    pub constraints: Vec<(String, String)>,
}

/// View of [`AuctionCommand`].
pub struct AuctionCommandX {
    pub reference: Seq<char>,
    pub subject_id: Seq<char>,
    pub constraints: Seq<(Seq<char>, Seq<char>)>,
}

impl DeepView for AuctionCommand {
    type V = AuctionCommandX;

    open spec fn deep_view(&self) -> AuctionCommandX {
        AuctionCommandX {
            reference: self.reference@,
            subject_id: self.subject_id@,
            constraints: self.constraints.deep_view(),
        }
    }
}

/// Whether an auction body decodes under the given reference and identifier
/// field names.
pub open spec fn auction_decodable(j: Jx, ref_field: Seq<char>, id_field: Seq<char>) -> bool {
    &&& j is Obj
    &&& jx_get_str(j->Obj_0, ref_field) is Some
    &&& jx_get_str(j->Obj_0, id_field) is Some
    &&& opt_strmap_ok(j->Obj_0, "constraints"@)
}

/// Decodes an auction request body; component auctions name the workload under
/// `component_ref`/`component_id`, provider auctions under
/// `provider_ref`/`provider_id`.
pub fn decode_auction(payload: &JVal, ref_field: &String, id_field: &String) -> (r: Result<
    AuctionCommand,
    String,
>)
    ensures
        match r {
            Ok(c) => auction_decodable(payload.jx(), ref_field@, id_field@) && {
                let f = payload.jx()->Obj_0;
                &&& jx_get_str(f, ref_field@) == Some(c.reference@)
                &&& jx_get_str(f, id_field@) == Some(c.subject_id@)
                &&& kvl_unique(c.constraints.deep_view())
                &&& kvl_map(c.constraints.deep_view()) == opt_strmap_val(f, "constraints"@)
            },
            Err(_) => !auction_decodable(payload.jx(), ref_field@, id_field@),
        },
{
    let fields = match payload.as_obj() {
        Some(fields) => fields,
        None => {
            return Err(jstr("auction request is not a JSON object"));
        },
    };
    let reference = match jobj_get_str(fields, ref_field) {
        Some(s) => s.clone(),
        None => {
            return Err(jstr("auction request lacks the workload reference"));
        },
    };
    let subject_id = match jobj_get_str(fields, id_field) {
        Some(s) => s.clone(),
        None => {
            return Err(jstr("auction request lacks the workload identifier"));
        },
    };
    let constraints = match get_opt_strmap(fields, &jstr("constraints")) {
        Some(m) => m,
        None => {
            return Err(jstr("constraints must map strings to strings"));
        },
    };
    Ok(AuctionCommand { reference, subject_id, constraints })
}

/// Whether the optional boolean field decodes: absent or a boolean.
pub open spec fn opt_bool_ok(f: Seq<(Seq<char>, Jx)>, name: Seq<char>) -> bool {
    match jx_obj_get(f, name) {
        Some(v) => v is Bool,
        None => true,
    }
}

/// The optional boolean field's value; false where absent.
pub open spec fn opt_bool_val(f: Seq<(Seq<char>, Jx)>, name: Seq<char>) -> bool {
    match jx_obj_get(f, name) {
        Some(Jx::Bool(b)) => b,
        _ => false,
    }
}

/// Reads an optional boolean field, false where absent.
pub fn get_opt_bool(fields: &Vec<(String, JVal)>, name: &String) -> (r: Result<bool, ()>)
    ensures
        match r {
            Ok(b) => opt_bool_ok(fields.deep_view(), name@) && b == opt_bool_val(
                fields.deep_view(),
                name@,
            ),
            Err(_) => !opt_bool_ok(fields.deep_view(), name@),
        },
{
    match jobj_get(fields, name) {
        Some(v) => match v.as_bool() {
            Some(b) => Ok(b),
            None => Err(()),
        },
        None => Ok(false),
    }
}

/// What one registry's credentials object decodes to, as a function of its
/// JSON alone.
pub open spec fn reg_creds_of(j: Jx) -> Option<crate::types::RegistryCredentialsX> {
    if j is Obj && opt_str_ok(j->Obj_0, "username"@) && opt_str_ok(j->Obj_0, "password"@)
        && opt_bool_ok(j->Obj_0, "allow_latest"@) && opt_bool_ok(j->Obj_0, "allow_insecure"@) {
        Some(
            crate::types::RegistryCredentialsX {
                username: opt_str_val(j->Obj_0, "username"@),
                password: opt_str_val(j->Obj_0, "password"@),
                allow_latest: opt_bool_val(j->Obj_0, "allow_latest"@),
                allow_insecure: opt_bool_val(j->Obj_0, "allow_insecure"@),
            },
        )
    } else {
        None
    }
}

/// The registry map a `registry.put` body folds to, later entries winning;
/// `None` where some value is not a credentials object.
pub open spec fn regmap_fold(fields: Seq<(Seq<char>, Jx)>) -> Option<
    Map<Seq<char>, crate::types::RegistryCredentialsX>,
>
    decreases fields.len(),
{
    if fields.len() == 0 {
        Some(Map::empty())
    } else {
        match regmap_fold(fields.drop_last()) {
            Some(m) => match reg_creds_of(fields.last().1) {
                Some(c) => Some(m.insert(fields.last().0, c)),
                None => None,
            },
            None => None,
        }
    }
}

/// Decodes one registry's credentials object.
fn decode_reg_creds(v: &JVal) -> (r: Option<crate::types::RegistryCredentials>)
    ensures
        match r {
            Some(c) => reg_creds_of(v.jx()) == Some(c.deep_view()),
            None => reg_creds_of(v.jx()) is None,
        },
{
    let fields = match v.as_obj() {
        Some(fields) => fields,
        None => {
            return None;
        },
    };
    let username = match get_opt_str(fields, &jstr("username")) {
        Ok(x) => x,
        Err(_) => {
            return None;
        },
    };
    let password = match get_opt_str(fields, &jstr("password")) {
        Ok(x) => x,
        Err(_) => {
            return None;
        },
    };
    let allow_latest = match get_opt_bool(fields, &jstr("allow_latest")) {
        Ok(x) => x,
        Err(_) => {
            return None;
        },
    };
    let allow_insecure = match get_opt_bool(fields, &jstr("allow_insecure")) {
        Ok(x) => x,
        Err(_) => {
            return None;
        },
    };
    Some(crate::types::RegistryCredentials { username, password, allow_latest, allow_insecure })
}

/// Once a fold has failed on a prefix, it fails on the whole.
proof fn lemma_regmap_fold_extends_none(fields: Seq<(Seq<char>, Jx)>, k: int)
    requires
        0 <= k <= fields.len(),
        regmap_fold(fields.take(k)) is None,
    ensures
        regmap_fold(fields) is None,
    decreases fields.len() - k,
{
    if k < fields.len() {
        assert(fields.take(k + 1).drop_last() =~= fields.take(k));
        lemma_regmap_fold_extends_none(fields, k + 1);
    } else {
        assert(fields.take(k) =~= fields);
    }
}

/// Decodes a `registry.put` body: a JSON object mapping each registry to its
/// credentials.
pub fn decode_registry_put(payload: &JVal) -> (r: Result<
    Vec<(String, crate::types::RegistryCredentials)>,
    String,
>)
    ensures
        match r {
            Ok(m) => kvl_unique(m.deep_view()) && payload.jx() is Obj && regmap_fold(
                payload.jx()->Obj_0,
            ) == Some(kvl_map(m.deep_view())),
            Err(_) => !(payload.jx() is Obj) || regmap_fold(payload.jx()->Obj_0) is None,
        },
{
    let fields = match payload.as_obj() {
        Some(fields) => fields,
        None => {
            return Err(jstr("registry request is not a JSON object"));
        },
    };
    let ghost fx = payload.jx()->Obj_0;
    let mut m: Vec<(String, crate::types::RegistryCredentials)> = Vec::new();
    let mut i: usize = 0;
    proof {
        assert(fx.take(0) =~= Seq::<(Seq<char>, Jx)>::empty());
    }
    while i < fields.len()
        invariant
            i <= fields.len(),
            fx == fields.deep_view(),
            payload.jx() is Obj,
            fx == payload.jx()->Obj_0,
            fx.len() == fields.len(),
            kvl_unique(m.deep_view()),
            regmap_fold(fx.take(i as int)) == Some(kvl_map(m.deep_view())),
        decreases fields.len() - i,
    {
        proof {
            assert(fx.take(i as int + 1).drop_last() =~= fx.take(i as int));
            assert(fx.take(i as int + 1).last() == fx[i as int]);
            assert(fx[i as int] == (fields@[i as int].0@, fields@[i as int].1.jx()));
        }
        let creds = match decode_reg_creds(&fields[i].1) {
            Some(c) => c,
            None => {
                proof {
                    lemma_regmap_fold_extends_none(fx, i as int + 1);
                }
                return Err(jstr("registry credentials do not decode"));
            },
        };
        kv_insert(&mut m, fields[i].0.clone(), creds);
        i = i + 1;
    }
    proof {
        assert(fx.take(fx.len() as int) =~= fx);
    }
    Ok(m)
}

} // verus!
