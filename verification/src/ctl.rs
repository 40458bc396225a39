//! The control-interface dispatcher: subject routing, per-verb handling, and
//! the reply envelope.
//!
//! A request's reply is the canonical envelope `{success, response, error}`,
//! where `response` is present exactly on success; a raw-bytes endpoint
//! (`link.get`, `config.get`) bypasses the envelope; a declined auction sends
//! nothing.

use vstd::prelude::*;

use crate::json::{json_encode, json_encoded, jstr, JVal, Jx};

verus! {

/// Where a control subject's tail routes. The host-addressed verbs carry the
/// host id as their third token, which the subscription already matched, so
/// its value is not inspected; the config verbs carry the configuration's name
/// instead, which is.
#[derive(PartialEq, Eq, Structural, Clone, Copy, Debug)]
pub enum CtlRoute {
    AuctionComponent,
    ScaleComponent,
    UpdateComponent,
    AuctionProvider,
    StartProvider,
    StopProvider,
    HostInventory,
    HostPing,
    HostStop,
    ClaimsGet,
    LinkDel,
    LinkGet,
    LinkPut,
    LabelDel,
    LabelPut,
    RegistryPut,
    ConfigGet,
    ConfigPut,
    ConfigDel,
    Unsupported,
}

/// The routing table over a subject's tail tokens; it is exhaustive, and
/// anything it does not name is unsupported.
pub open spec fn route_of(t: Seq<Seq<char>>) -> CtlRoute {
    if t.len() == 2 && t[0] == "component"@ && t[1] == "auction"@ {
        CtlRoute::AuctionComponent
    } else if t.len() == 3 && t[0] == "component"@ && t[1] == "scale"@ {
        CtlRoute::ScaleComponent
    } else if t.len() == 3 && t[0] == "component"@ && t[1] == "update"@ {
        CtlRoute::UpdateComponent
    } else if t.len() == 2 && t[0] == "provider"@ && t[1] == "auction"@ {
        CtlRoute::AuctionProvider
    } else if t.len() == 3 && t[0] == "provider"@ && t[1] == "start"@ {
        CtlRoute::StartProvider
    } else if t.len() == 3 && t[0] == "provider"@ && t[1] == "stop"@ {
        CtlRoute::StopProvider
    } else if t.len() == 3 && t[0] == "host"@ && t[1] == "get"@ {
        CtlRoute::HostInventory
    } else if t.len() == 2 && t[0] == "host"@ && t[1] == "ping"@ {
        CtlRoute::HostPing
    } else if t.len() == 3 && t[0] == "host"@ && t[1] == "stop"@ {
        CtlRoute::HostStop
    } else if t.len() == 2 && t[0] == "claims"@ && t[1] == "get"@ {
        CtlRoute::ClaimsGet
    } else if t.len() == 2 && t[0] == "link"@ && t[1] == "del"@ {
        CtlRoute::LinkDel
    } else if t.len() == 2 && t[0] == "link"@ && t[1] == "get"@ {
        CtlRoute::LinkGet
    } else if t.len() == 2 && t[0] == "link"@ && t[1] == "put"@ {
        CtlRoute::LinkPut
    } else if t.len() == 3 && t[0] == "label"@ && t[1] == "del"@ {
        CtlRoute::LabelDel
    } else if t.len() == 3 && t[0] == "label"@ && t[1] == "put"@ {
        CtlRoute::LabelPut
    } else if t.len() == 2 && t[0] == "registry"@ && t[1] == "put"@ {
        CtlRoute::RegistryPut
    } else if t.len() == 3 && t[0] == "config"@ && t[1] == "get"@ {
        CtlRoute::ConfigGet
    } else if t.len() == 3 && t[0] == "config"@ && t[1] == "put"@ {
        CtlRoute::ConfigPut
    } else if t.len() == 3 && t[0] == "config"@ && t[1] == "del"@ {
        CtlRoute::ConfigDel
    } else {
        CtlRoute::Unsupported
    }
}

/// Routes a subject tail.
pub fn route(t: &Vec<String>) -> (r: CtlRoute)
    ensures
        r == route_of(t.deep_view()),
{
    if t.len() == 2 {
        let (a, b) = (&t[0], &t[1]);
        if *a == jstr("component") && *b == jstr("auction") {
            CtlRoute::AuctionComponent
        } else if *a == jstr("provider") && *b == jstr("auction") {
            CtlRoute::AuctionProvider
        } else if *a == jstr("host") && *b == jstr("ping") {
            CtlRoute::HostPing
        } else if *a == jstr("claims") && *b == jstr("get") {
            CtlRoute::ClaimsGet
        } else if *a == jstr("link") && *b == jstr("del") {
            CtlRoute::LinkDel
        } else if *a == jstr("link") && *b == jstr("get") {
            CtlRoute::LinkGet
        } else if *a == jstr("link") && *b == jstr("put") {
            CtlRoute::LinkPut
        } else if *a == jstr("registry") && *b == jstr("put") {
            CtlRoute::RegistryPut
        } else {
            CtlRoute::Unsupported
        }
    } else if t.len() == 3 {
        let (a, b) = (&t[0], &t[1]);
        if *a == jstr("component") && *b == jstr("scale") {
            CtlRoute::ScaleComponent
        } else if *a == jstr("component") && *b == jstr("update") {
            CtlRoute::UpdateComponent
        } else if *a == jstr("provider") && *b == jstr("start") {
            CtlRoute::StartProvider
        } else if *a == jstr("provider") && *b == jstr("stop") {
            CtlRoute::StopProvider
        } else if *a == jstr("host") && *b == jstr("get") {
            CtlRoute::HostInventory
        } else if *a == jstr("host") && *b == jstr("stop") {
            CtlRoute::HostStop
        } else if *a == jstr("label") && *b == jstr("del") {
            CtlRoute::LabelDel
        } else if *a == jstr("label") && *b == jstr("put") {
            CtlRoute::LabelPut
        } else if *a == jstr("config") && *b == jstr("get") {
            CtlRoute::ConfigGet
        } else if *a == jstr("config") && *b == jstr("put") {
            CtlRoute::ConfigPut
        } else if *a == jstr("config") && *b == jstr("del") {
            CtlRoute::ConfigDel
        } else {
            CtlRoute::Unsupported
        }
    } else {
        CtlRoute::Unsupported
    }
}

/// The success envelope: `success` is true and the response, where the verb
/// has one, stands under `response`.
pub open spec fn success_envelope_jx(resp: Option<Jx>) -> Jx {
    match resp {
        Some(r) => Jx::Obj(seq![("success"@, Jx::Bool(true)), ("response"@, r)]),
        None => Jx::Obj(seq![("success"@, Jx::Bool(true))]),
    }
}

/// The error envelope: `success` is false and the message stands under
/// `error`.
pub open spec fn error_envelope_jx(msg: Seq<char>) -> Jx {
    Jx::Obj(seq![("success"@, Jx::Bool(false)), ("error"@, Jx::Str(msg))])
}

/// Encodes a success reply.
pub fn ctl_success_bytes(resp: Option<JVal>) -> (r: Vec<u8>)
    ensures
        r@ == json_encoded(success_envelope_jx(resp.deep_view())),
{
    let mut fields: Vec<(String, JVal)> = Vec::new();
    fields.push((jstr("success"), JVal::Bool(true)));
    let ghost respx = resp.deep_view();
    match resp {
        Some(v) => {
            fields.push((jstr("response"), v));
        },
        None => {},
    }
    proof {
        crate::event::lemma_obj_jx(fields);
        assert(fields.deep_view() =~= success_envelope_jx(respx)->Obj_0);
    }
    json_encode(&JVal::Obj(fields))
}

/// Encodes an error reply.
pub fn ctl_error_bytes(msg: String) -> (r: Vec<u8>)
    ensures
        r@ == json_encoded(error_envelope_jx(msg@)),
{
    let mut fields: Vec<(String, JVal)> = Vec::new();
    fields.push((jstr("success"), JVal::Bool(false)));
    let ghost msgx = msg@;
    fields.push((jstr("error"), JVal::Str(msg)));
    proof {
        crate::event::lemma_obj_jx(fields);
        assert(fields.deep_view() =~= error_envelope_jx(msgx)->Obj_0);
    }
    json_encode(&JVal::Obj(fields))
}

/// An event announcing a failed scale, over the given claims, annotation map,
/// host, reference, identifier, count and message. The annotations' field
/// order inside the payload is not pinned; their map is.
pub open spec fn is_component_scale_failed_event(
    ev: (Seq<char>, Jx),
    claims: Option<crate::types::ClaimsX>,
    ann_map: Map<Seq<char>, Seq<char>>,
    host_id: Seq<char>,
    image_ref: Seq<char>,
    component_id: Seq<char>,
    max_instances: u32,
    error: Seq<char>,
) -> bool {
    &&& ev.0 == "component_scale_failed"@
    &&& exists|ann: Seq<(Seq<char>, Seq<char>)>|
        crate::kvlist::kvl_unique(ann) && crate::kvlist::kvl_map(ann) == ann_map && ev.1
            == crate::event::component_scale_failed_data(
            claims,
            ann,
            host_id,
            image_ref,
            component_id,
            max_instances,
            error,
        )
}

/// A store write of a component spec under `COMPONENT_<id>`, carrying the
/// given reference, count and annotation map.
pub open spec fn is_component_put_op(
    op: crate::types::StoreOpX,
    component_id: Seq<char>,
    image_ref: Seq<char>,
    max_instances: u32,
    ann_map: Map<Seq<char>, Seq<char>>,
) -> bool {
    &&& op is PutData
    &&& op->PutData_0 == "COMPONENT_"@ + component_id
    &&& exists|ann: Seq<(Seq<char>, Seq<char>)>|
        crate::kvlist::kvl_unique(ann) && crate::kvlist::kvl_map(ann) == ann_map
            && op->PutData_1 == json_encoded(
            crate::store::component_spec_jx(
                crate::types::ComponentSpecX { image_ref, max_instances, annotations: ann },
            ),
        )
}

/// Whether a scale command is rejected before any store write: an empty
/// component id or reference is invalid, and a scale may not change a running
/// component's reference and count at once — that takes an update.
pub open spec fn scale_validation_error(
    components: Map<Seq<char>, crate::types::ComponentSpecX>,
    component_id: Seq<char>,
    reference: Seq<char>,
    max_instances: u32,
) -> bool {
    ||| component_id.len() == 0
    ||| reference.len() == 0
    ||| (components.contains_key(component_id) && components[component_id].image_ref != reference
        && components[component_id].max_instances != max_instances)
}

/// The claims a host knows for a component, keyed by its identifier.
pub open spec fn claims_lookup(
    claims: Map<Seq<char>, crate::types::ClaimsX>,
    id: Seq<char>,
) -> Option<crate::types::ClaimsX> {
    if claims.contains_key(id) {
        Some(claims[id])
    } else {
        None
    }
}

impl crate::host::HostState {
    /// Handles `component.scale`: validates the command, consults the policy
    /// decision, and on acceptance writes the desired spec to the data bucket.
    /// The reply is owed success exactly where the command decodes, passes
    /// validation and is allowed; every validation failure or denial announces
    /// `component_scale_failed` with the reply's error, and nothing announces
    /// `component_scaled` here — that event follows from the watcher seeing
    /// the write echoed back.
    pub fn handle_scale_component(
        &self,
        payload: &JVal,
        policy: &crate::policy::PolicyDecision,
    ) -> (r: (Result<(), String>, Vec<crate::types::Event>, Vec<crate::types::StoreOp>))
        requires
            self.wf(),
        ensures
            ({
                let j = payload.jx();
                if !crate::cmd::scale_decodable(j) {
                    &&& r.0 is Err
                    &&& r.1.deep_view().len() == 0
                    &&& r.2.deep_view().len() == 0
                } else {
                    let f = j->Obj_0;
                    let id = crate::json::jx_get_str(f, "component_id"@)->0;
                    let refr = crate::json::jx_get_str(f, "reference"@)->0;
                    let max = crate::json::jx_get_u64(f, "max_instances"@)->0 as u32;
                    let ann = crate::cmd::opt_strmap_val(f, "annotations"@);
                    if scale_validation_error(
                        crate::kvlist::kvl_map(self.components.deep_view()),
                        id,
                        refr,
                        max,
                    ) || policy.deep_view() is Deny {
                        &&& r.0 is Err
                        &&& r.0->Err_0@.len() > 0
                        &&& r.1.deep_view().len() == 1
                        &&& is_component_scale_failed_event(
                            r.1.deep_view()[0],
                            claims_lookup(
                                crate::kvlist::kvl_map(self.claims_components.deep_view()),
                                id,
                            ),
                            ann,
                            self.host_id@,
                            refr,
                            id,
                            max,
                            r.0->Err_0@,
                        )
                        &&& r.2.deep_view().len() == 0
                    } else {
                        &&& r.0 is Ok
                        &&& r.1.deep_view().len() == 0
                        &&& r.2.deep_view().len() == 1
                        &&& is_component_put_op(r.2.deep_view()[0], id, refr, max, ann)
                    }
                }
            }),
    {
        let cmd = match crate::cmd::decode_scale(payload) {
            Ok(cmd) => cmd,
            Err(msg) => {
                return (Err(msg), Vec::new(), Vec::new());
            },
        };
        proof {
            reveal_strlit("component_id must not be empty");
            reveal_strlit("reference must not be empty");
            reveal_strlit(
                "a scale may not change the reference and max instances at once; use update",
            );
            reveal_strlit("policy denied scale request: ");
        }
        let mut error: Option<String> = None;
        if cmd.component_id.as_str().is_empty() {
            error = Some(jstr("component_id must not be empty"));
        } else if cmd.reference.as_str().is_empty() {
            error = Some(jstr("reference must not be empty"));
        } else {
            match crate::kvlist::kv_get(&self.components, &cmd.component_id) {
                Some(current) => {
                    if !(current.image_ref == cmd.reference) && current.max_instances
                        != cmd.max_instances {
                        error = Some(
                            jstr(
                                "a scale may not change the reference and max instances at once; use update",
                            ),
                        );
                    }
                },
                None => {},
            }
        }
        if error.is_none() {
            match policy {
                crate::policy::PolicyDecision::Deny(reason) => {
                    error = Some(jstr("policy denied scale request: ").concat(reason.as_str()));
                },
                crate::policy::PolicyDecision::Allow => {},
            }
        }
        match error {
            Some(msg) => {
                let claims = crate::kvlist::kv_get(&self.claims_components, &cmd.component_id);
                let data = crate::event::component_scale_failed(
                    claims,
                    &cmd.annotations,
                    &self.host_id,
                    &cmd.reference,
                    &cmd.component_id,
                    cmd.max_instances,
                    &msg,
                );
                let mut events: Vec<crate::types::Event> = Vec::new();
                let ghost datax = data.jx();
                events.push((jstr("component_scale_failed"), data));
                proof {
                    assert(events.deep_view() =~= Seq::<(Seq<char>, Jx)>::empty().push(
                        ("component_scale_failed"@, datax),
                    ));
                }
                (Err(msg), events, Vec::new())
            },
            None => {
                let spec_value = crate::store::component_spec_jval(
                    &crate::types::ComponentSpec {
                        image_ref: cmd.reference,
                        max_instances: cmd.max_instances,
                        annotations: cmd.annotations,
                    },
                );
                let bytes = json_encode(&spec_value);
                let key = jstr("COMPONENT_").concat(cmd.component_id.as_str());
                let mut ops: Vec<crate::types::StoreOp> = Vec::new();
                let ghost keyx = key@;
                let ghost bytesx = bytes@;
                ops.push(crate::types::StoreOp::PutData(key, bytes));
                proof {
                    assert(ops.deep_view() =~= Seq::<crate::types::StoreOpX>::empty().push(
                        crate::types::StoreOpX::PutData(keyx, bytesx),
                    ));
                }
                (Ok(()), Vec::new(), ops)
            },
        }
    }
}

/// The acknowledgement a bidding host sends back in an auction: the request's
/// reference, identifier and constraints, and the bidder's identity.
pub open spec fn auction_ack_jx(
    ref_field: Seq<char>,
    reference: Seq<char>,
    id_field: Seq<char>,
    subject_id: Seq<char>,
    constraints: Seq<(Seq<char>, Seq<char>)>,
    host_id: Seq<char>,
) -> Jx {
    Jx::Obj(
        seq![
            (ref_field, Jx::Str(reference)),
            (id_field, Jx::Str(subject_id)),
            ("constraints"@, Jx::Obj(crate::event::strmap_jx(constraints))),
            ("host_id"@, Jx::Str(host_id)),
        ],
    )
}

/// Whether a host's labels satisfy an auction's constraints: every constraint
/// pair is among the labels.
pub open spec fn constraints_satisfied(
    labels: Map<Seq<char>, Seq<char>>,
    constraints: Map<Seq<char>, Seq<char>>,
) -> bool {
    constraints.submap_of(labels)
}

impl crate::host::HostState {
    /// Handles `component.update`: a no-op success where the new reference
    /// equals the stored one, a store write of the spec under the new
    /// reference otherwise, keeping the stored instance count. An unknown
    /// component is an error. Annotations are replaced where the request names
    /// them and kept otherwise.
    pub fn handle_update_component(&self, payload: &JVal) -> (r: (
        Result<(), String>,
        Vec<crate::types::StoreOp>,
    ))
        requires
            self.wf(),
        ensures
            ({
                let j = payload.jx();
                let components = crate::kvlist::kvl_map(self.components.deep_view());
                if !crate::cmd::update_decodable(j) {
                    r.0 is Err && r.1.deep_view().len() == 0
                } else {
                    let f = j->Obj_0;
                    let id = crate::json::jx_get_str(f, "component_id"@)->0;
                    let newref = crate::json::jx_get_str(f, "new_reference"@)->0;
                    if !components.contains_key(id) {
                        r.0 is Err && r.0->Err_0@.len() > 0 && r.1.deep_view().len() == 0
                    } else if components[id].image_ref == newref {
                        r.0 is Ok && r.1.deep_view().len() == 0
                    } else {
                        &&& r.0 is Ok
                        &&& r.1.deep_view().len() == 1
                        &&& is_component_put_op(
                            r.1.deep_view()[0],
                            id,
                            newref,
                            components[id].max_instances,
                            if crate::json::jx_obj_get(f, "annotations"@) is Some {
                                crate::cmd::opt_strmap_val(f, "annotations"@)
                            } else {
                                crate::kvlist::kvl_map(components[id].annotations)
                            },
                        )
                    }
                }
            }),
    {
        proof {
            reveal_strlit("component is not running on this host");
        }
        let cmd = match crate::cmd::decode_update(payload) {
            Ok(cmd) => cmd,
            Err(msg) => {
                return (Err(msg), Vec::new());
            },
        };
        let current = match crate::kvlist::kv_get(&self.components, &cmd.component_id) {
            Some(current) => current,
            None => {
                return (Err(jstr("component is not running on this host")), Vec::new());
            },
        };
        if current.image_ref == cmd.new_reference {
            return (Ok(()), Vec::new());
        }
        proof {
            assert(self.components_map().contains_key(cmd.component_id@));
            assert(self.components_map()[cmd.component_id@] == current.deep_view());
            assert(crate::kvlist::kvl_unique(current.deep_view().annotations));
        }
        let annotations = match cmd.annotations {
            Some(m) => m,
            None => crate::kvlist::kv_copy(&current.annotations),
        };
        proof {
            assert(crate::kvlist::kvl_unique(annotations.deep_view()));
        }
        let spec_value = crate::store::component_spec_jval(
            &crate::types::ComponentSpec {
                image_ref: cmd.new_reference,
                max_instances: current.max_instances,
                annotations,
            },
        );
        let bytes = json_encode(&spec_value);
        let key = jstr("COMPONENT_").concat(cmd.component_id.as_str());
        let mut ops: Vec<crate::types::StoreOp> = Vec::new();
        let ghost keyx = key@;
        let ghost bytesx = bytes@;
        ops.push(crate::types::StoreOp::PutData(key, bytes));
        proof {
            assert(ops.deep_view() =~= Seq::<crate::types::StoreOpX>::empty().push(
                crate::types::StoreOpX::PutData(keyx, bytesx),
            ));
        }
        (Ok(()), ops)
    }

    /// Handles `component.auction`: bids exactly where the constraints are
    /// satisfied by this host's labels and the component is not already
    /// running here; a declined auction sends nothing back.
    pub fn handle_auction_component(&self, payload: &JVal) -> (r: Result<Option<JVal>, String>)
        requires
            self.wf(),
        ensures
            ({
                let j = payload.jx();
                if !crate::cmd::auction_decodable(j, "component_ref"@, "component_id"@) {
                    r is Err
                } else {
                    let f = j->Obj_0;
                    let refr = crate::json::jx_get_str(f, "component_ref"@)->0;
                    let id = crate::json::jx_get_str(f, "component_id"@)->0;
                    let cs = crate::cmd::opt_strmap_val(f, "constraints"@);
                    if constraints_satisfied(self.labels_map(), cs) && !self.components_map()
                        .contains_key(id) {
                        r is Ok && r->Ok_0 is Some && exists|ann: Seq<(Seq<char>, Seq<char>)>|
                            crate::kvlist::kvl_unique(ann) && crate::kvlist::kvl_map(ann) == cs
                                && r->Ok_0->0.jx() == auction_ack_jx(
                                "component_ref"@,
                                refr,
                                "component_id"@,
                                id,
                                ann,
                                self.host_id@,
                            )
                    } else {
                        r is Ok && r->Ok_0 is None
                    }
                }
            }),
    {
        let cmd = match crate::cmd::decode_auction(
            payload,
            &jstr("component_ref"),
            &jstr("component_id"),
        ) {
            Ok(cmd) => cmd,
            Err(msg) => {
                return Err(msg);
            },
        };
        let satisfied = crate::kvlist::kv_submap(&cmd.constraints, &self.labels);
        let running = crate::kvlist::kv_contains(&self.components, &cmd.subject_id);
        if satisfied && !running {
            Ok(
                Some(
                    self.auction_ack(
                        jstr("component_ref"),
                        cmd.reference,
                        jstr("component_id"),
                        cmd.subject_id,
                        &cmd.constraints,
                    ),
                ),
            )
        } else {
            Ok(None)
        }
    }

    /// Handles `provider.auction`: bids exactly where the constraints are
    /// satisfied and the provider is not already running here.
    pub fn handle_auction_provider(&self, payload: &JVal) -> (r: Result<Option<JVal>, String>)
        requires
            self.wf(),
        ensures
            ({
                let j = payload.jx();
                if !crate::cmd::auction_decodable(j, "provider_ref"@, "provider_id"@) {
                    r is Err
                } else {
                    let f = j->Obj_0;
                    let refr = crate::json::jx_get_str(f, "provider_ref"@)->0;
                    let id = crate::json::jx_get_str(f, "provider_id"@)->0;
                    let cs = crate::cmd::opt_strmap_val(f, "constraints"@);
                    if constraints_satisfied(self.labels_map(), cs) && !self.providers_map()
                        .contains_key(id) {
                        r is Ok && r->Ok_0 is Some && exists|ann: Seq<(Seq<char>, Seq<char>)>|
                            crate::kvlist::kvl_unique(ann) && crate::kvlist::kvl_map(ann) == cs
                                && r->Ok_0->0.jx() == auction_ack_jx(
                                "provider_ref"@,
                                refr,
                                "provider_id"@,
                                id,
                                ann,
                                self.host_id@,
                            )
                    } else {
                        r is Ok && r->Ok_0 is None
                    }
                }
            }),
    {
        let cmd = match crate::cmd::decode_auction(
            payload,
            &jstr("provider_ref"),
            &jstr("provider_id"),
        ) {
            Ok(cmd) => cmd,
            Err(msg) => {
                return Err(msg);
            },
        };
        let satisfied = crate::kvlist::kv_submap(&cmd.constraints, &self.labels);
        let running = crate::kvlist::kv_contains(&self.providers, &cmd.subject_id);
        if satisfied && !running {
            Ok(
                Some(
                    self.auction_ack(
                        jstr("provider_ref"),
                        cmd.reference,
                        jstr("provider_id"),
                        cmd.subject_id,
                        &cmd.constraints,
                    ),
                ),
            )
        } else {
            Ok(None)
        }
    }

    /// Builds an auction acknowledgement.
    fn auction_ack(
        &self,
        ref_field: String,
        reference: String,
        id_field: String,
        subject_id: String,
        constraints: &Vec<(String, String)>,
    ) -> (r: JVal)
        ensures
            r.jx() == auction_ack_jx(
                ref_field@,
                reference@,
                id_field@,
                subject_id@,
                constraints.deep_view(),
                self.host_id@,
            ),
    {
        let mut fields: Vec<(String, JVal)> = Vec::new();
        let ghost rf = ref_field@;
        let ghost idf = id_field@;
        fields.push((ref_field, JVal::Str(reference)));
        fields.push((id_field, JVal::Str(subject_id)));
        fields.push((jstr("constraints"), crate::event::strmap_jval(constraints)));
        fields.push((jstr("host_id"), JVal::Str(self.host_id.clone())));
        proof {
            crate::event::lemma_obj_jx(fields);
            assert(fields.deep_view() =~= auction_ack_jx(
                rf,
                reference@,
                idf,
                subject_id@,
                constraints.deep_view(),
                self.host_id@,
            )->Obj_0);
        }
        JVal::Obj(fields)
    }
}

/// The data-bucket key a link is persisted under. The path is deprecated —
/// the watcher ignores `LINKDEF_` entries — but the write is kept for peers
/// that still read it.
pub open spec fn linkdef_store_key(k: crate::types::LinkKeyX) -> Seq<char> {
    "LINKDEF_"@ + k.source_id + "_"@ + k.name + "_"@ + k.wit_namespace + "_"@ + k.wit_package
}

/// An event announcing a started provider.
pub open spec fn is_provider_started_event(
    ev: (Seq<char>, Jx),
    claims: Option<crate::types::ClaimsX>,
    ann_map: Map<Seq<char>, Seq<char>>,
    host_id: Seq<char>,
    image_ref: Seq<char>,
    provider_id: Seq<char>,
) -> bool {
    &&& ev.0 == "provider_started"@
    &&& exists|ann: Seq<(Seq<char>, Seq<char>)>|
        crate::kvlist::kvl_unique(ann) && crate::kvlist::kvl_map(ann) == ann_map && ev.1
            == crate::event::provider_started_data(claims, ann, host_id, image_ref, provider_id)
}

impl crate::host::HostState {
    /// Handles `provider.start`: validates, consults the policy decision, and
    /// starts the provider. Starting a provider that already runs here is a
    /// success that changes nothing and announces nothing, so a repeated start
    /// cannot duplicate an instance; a denial announces
    /// `provider_start_failed` and changes nothing.
    pub fn handle_start_provider(
        &mut self,
        payload: &JVal,
        policy: &crate::policy::PolicyDecision,
    ) -> (r: (Result<(), String>, Vec<crate::types::Event>))
        requires
            old(self).wf(),
        ensures
            final(self).wf(),
            final(self).host_id == old(self).host_id,
            final(self).lattice == old(self).lattice,
            final(self).friendly_name == old(self).friendly_name,
            final(self).version == old(self).version,
            final(self).labels == old(self).labels,
            final(self).components == old(self).components,
            final(self).links == old(self).links,
            final(self).claims_components == old(self).claims_components,
            final(self).claims_providers == old(self).claims_providers,
            final(self).registry_config == old(self).registry_config,
            final(self).stop_deadline == old(self).stop_deadline,
            ({
                let j = payload.jx();
                if !crate::cmd::start_provider_decodable(j) {
                    &&& r.0 is Err
                    &&& r.1.deep_view().len() == 0
                    &&& final(self).providers == old(self).providers
                } else {
                    let f = j->Obj_0;
                    let id = crate::json::jx_get_str(f, "provider_id"@)->0;
                    let refr = crate::json::jx_get_str(f, "provider_ref"@)->0;
                    let ann = crate::cmd::opt_strmap_val(f, "annotations"@);
                    if id.len() == 0 || refr.len() == 0 || policy.deep_view() is Deny {
                        &&& r.0 is Err
                        &&& r.0->Err_0@.len() > 0
                        &&& final(self).providers == old(self).providers
                        &&& (if id.len() == 0 || refr.len() == 0 {
                            r.1.deep_view().len() == 0
                        } else {
                            r.1.deep_view().len() == 1 && r.1.deep_view()[0].0
                                == "provider_start_failed"@ && r.1.deep_view()[0].1
                                == crate::event::provider_start_failed_data(
                                refr,
                                id,
                                old(self).host_id@,
                                r.0->Err_0@,
                            )
                        })
                    } else if old(self).providers_map().contains_key(id) {
                        &&& r.0 is Ok
                        &&& r.1.deep_view().len() == 0
                        &&& final(self).providers == old(self).providers
                    } else {
                        &&& r.0 is Ok
                        &&& final(self).providers_map().contains_key(id)
                        &&& final(self).providers_map()[id].image_ref == refr
                        &&& crate::kvlist::kvl_map(final(self).providers_map()[id].annotations)
                            == ann
                        &&& final(self).providers_map().remove(id) == old(
                            self,
                        ).providers_map().remove(id)
                        &&& r.1.deep_view().len() == 1
                        &&& is_provider_started_event(
                            r.1.deep_view()[0],
                            claims_lookup(
                                crate::kvlist::kvl_map(old(self).claims_providers.deep_view()),
                                id,
                            ),
                            ann,
                            old(self).host_id@,
                            refr,
                            id,
                        )
                    }
                }
            }),
    {
        proof {
            reveal_strlit("provider_id must not be empty");
            reveal_strlit("provider_ref must not be empty");
            reveal_strlit("policy denied provider start: ");
        }
        let cmd = match crate::cmd::decode_start_provider(payload) {
            Ok(cmd) => cmd,
            Err(msg) => {
                return (Err(msg), Vec::new());
            },
        };
        if cmd.provider_id.as_str().is_empty() {
            return (Err(jstr("provider_id must not be empty")), Vec::new());
        }
        if cmd.provider_ref.as_str().is_empty() {
            return (Err(jstr("provider_ref must not be empty")), Vec::new());
        }
        match policy {
            crate::policy::PolicyDecision::Deny(reason) => {
                let msg = jstr("policy denied provider start: ").concat(reason.as_str());
                let data = crate::event::provider_start_failed(
                    &cmd.provider_ref,
                    &cmd.provider_id,
                    &self.host_id,
                    &msg,
                );
                let mut events: Vec<crate::types::Event> = Vec::new();
                let ghost datax = data.jx();
                events.push((jstr("provider_start_failed"), data));
                proof {
                    assert(events.deep_view() =~= Seq::<(Seq<char>, Jx)>::empty().push(
                        ("provider_start_failed"@, datax),
                    ));
                }
                return (Err(msg), events);
            },
            crate::policy::PolicyDecision::Allow => {},
        }
        if crate::kvlist::kv_contains(&self.providers, &cmd.provider_id) {
            return (Ok(()), Vec::new());
        }
        let claims = crate::kvlist::kv_get(&self.claims_providers, &cmd.provider_id);
        let data = crate::event::provider_started(
            claims,
            &cmd.annotations,
            &self.host_id,
            &cmd.provider_ref,
            &cmd.provider_id,
        );
        let mut events: Vec<crate::types::Event> = Vec::new();
        let ghost datax = data.jx();
        events.push((jstr("provider_started"), data));
        proof {
            assert(events.deep_view() =~= Seq::<(Seq<char>, Jx)>::empty().push(
                ("provider_started"@, datax),
            ));
        }
        crate::kvlist::kv_insert(
            &mut self.providers,
            cmd.provider_id,
            crate::types::ProviderInstance {
                image_ref: cmd.provider_ref,
                annotations: cmd.annotations,
            },
        );
        proof {
            assert(self.components_map() == old(self).components_map());
        }
        (Ok(()), events)
    }

    /// Handles `provider.stop`: stops the provider and announces
    /// `provider_stopped`; stopping a provider that does not run here is a
    /// success that changes and announces nothing.
    pub fn handle_stop_provider(&mut self, payload: &JVal) -> (r: (
        Result<(), String>,
        Vec<crate::types::Event>,
    ))
        requires
            old(self).wf(),
        ensures
            final(self).wf(),
            final(self).host_id == old(self).host_id,
            final(self).lattice == old(self).lattice,
            final(self).friendly_name == old(self).friendly_name,
            final(self).version == old(self).version,
            final(self).labels == old(self).labels,
            final(self).components == old(self).components,
            final(self).links == old(self).links,
            final(self).claims_components == old(self).claims_components,
            final(self).claims_providers == old(self).claims_providers,
            final(self).registry_config == old(self).registry_config,
            final(self).stop_deadline == old(self).stop_deadline,
            ({
                let j = payload.jx();
                if !crate::cmd::stop_provider_decodable(j) {
                    &&& r.0 is Err
                    &&& r.1.deep_view().len() == 0
                    &&& final(self).providers == old(self).providers
                } else {
                    let id = crate::json::jx_get_str(j->Obj_0, "provider_id"@)->0;
                    &&& r.0 is Ok
                    &&& crate::kvlist::kvl_map(final(self).providers.deep_view())
                        == crate::kvlist::kvl_map(old(self).providers.deep_view()).remove(id)
                    &&& (if old(self).providers_map().contains_key(id) {
                        r.1.deep_view().len() == 1 && r.1.deep_view()[0].0 == "provider_stopped"@
                            && exists|ann: Seq<(Seq<char>, Seq<char>)>|
                            crate::kvlist::kvl_map(ann) == crate::kvlist::kvl_map(
                                old(self).providers_map()[id].annotations,
                            ) && r.1.deep_view()[0].1 == crate::event::provider_stopped_data(
                                ann,
                                old(self).host_id@,
                                id,
                                "stop"@,
                            )
                    } else {
                        r.1.deep_view().len() == 0
                    })
                }
            }),
    {
        let provider_id = match crate::cmd::decode_stop_provider(payload) {
            Ok(id) => id,
            Err(msg) => {
                return (Err(msg), Vec::new());
            },
        };
        let mut events: Vec<crate::types::Event> = Vec::new();
        match crate::kvlist::kv_get(&self.providers, &provider_id) {
            Some(instance) => {
                let anns = crate::kvlist::kv_copy(&instance.annotations);
                let data = crate::event::provider_stopped(
                    &anns,
                    &self.host_id,
                    &provider_id,
                    &jstr("stop"),
                );
                let ghost datax = data.jx();
                events.push((jstr("provider_stopped"), data));
                proof {
                    assert(events.deep_view() =~= Seq::<(Seq<char>, Jx)>::empty().push(
                        ("provider_stopped"@, datax),
                    ));
                }
            },
            None => {},
        }
        crate::kvlist::kv_remove(&mut self.providers, &provider_id);
        proof {
            assert(self.components_map() == old(self).components_map());
        }
        (Ok(()), events)
    }

    /// Handles `host.stop`: records the stop deadline for every long-running
    /// loop to observe.
    pub fn handle_stop_host(&mut self, payload: &JVal) -> (r: Result<(), String>)
        requires
            old(self).wf(),
        ensures
            final(self).wf(),
            final(self).host_id == old(self).host_id,
            final(self).lattice == old(self).lattice,
            final(self).friendly_name == old(self).friendly_name,
            final(self).version == old(self).version,
            final(self).labels == old(self).labels,
            final(self).components == old(self).components,
            final(self).providers == old(self).providers,
            final(self).links == old(self).links,
            final(self).claims_components == old(self).claims_components,
            final(self).claims_providers == old(self).claims_providers,
            final(self).registry_config == old(self).registry_config,
            ({
                let j = payload.jx();
                if !crate::cmd::stop_host_decodable(j) {
                    r is Err && final(self).stop_deadline == old(self).stop_deadline
                } else {
                    r is Ok && final(self).stop_deadline == crate::cmd::opt_u64_val(
                        j->Obj_0,
                        "timeout"@,
                    )
                }
            }),
    {
        let timeout = match crate::cmd::decode_stop_host(payload) {
            Ok(t) => t,
            Err(msg) => {
                return Err(msg);
            },
        };
        self.stop_deadline = timeout;
        proof {
            assert(self.components_map() == old(self).components_map());
        }
        Ok(())
    }

    /// Handles `label.put`: binds the label and announces the full label map.
    pub fn handle_label_put(&mut self, payload: &JVal) -> (r: (
        Result<(), String>,
        Vec<crate::types::Event>,
    ))
        requires
            old(self).wf(),
        ensures
            final(self).wf(),
            final(self).host_id == old(self).host_id,
            final(self).lattice == old(self).lattice,
            final(self).friendly_name == old(self).friendly_name,
            final(self).version == old(self).version,
            final(self).components == old(self).components,
            final(self).providers == old(self).providers,
            final(self).links == old(self).links,
            final(self).claims_components == old(self).claims_components,
            final(self).claims_providers == old(self).claims_providers,
            final(self).registry_config == old(self).registry_config,
            final(self).stop_deadline == old(self).stop_deadline,
            ({
                let j = payload.jx();
                if !crate::cmd::label_put_decodable(j) {
                    &&& r.0 is Err
                    &&& r.1.deep_view().len() == 0
                    &&& final(self).labels == old(self).labels
                } else {
                    let k = crate::json::jx_get_str(j->Obj_0, "key"@)->0;
                    let v = crate::json::jx_get_str(j->Obj_0, "value"@)->0;
                    &&& r.0 is Ok
                    &&& final(self).labels_map() == old(self).labels_map().insert(k, v)
                    &&& r.1.deep_view().len() == 1
                    &&& r.1.deep_view()[0].0 == "labels_changed"@
                    &&& r.1.deep_view()[0].1 == crate::event::labels_changed_data(
                        old(self).host_id@,
                        final(self).labels.deep_view(),
                    )
                }
            }),
    {
        let kv = match crate::cmd::decode_label_put(payload) {
            Ok(kv) => kv,
            Err(msg) => {
                return (Err(msg), Vec::new());
            },
        };
        crate::kvlist::kv_insert(&mut self.labels, kv.0, kv.1);
        proof {
            assert(self.components_map() == old(self).components_map());
        }
        let data = crate::event::labels_changed(&self.host_id, &self.labels);
        let mut events: Vec<crate::types::Event> = Vec::new();
        let ghost datax = data.jx();
        events.push((jstr("labels_changed"), data));
        proof {
            assert(events.deep_view() =~= Seq::<(Seq<char>, Jx)>::empty().push(
                ("labels_changed"@, datax),
            ));
        }
        (Ok(()), events)
    }

    /// Handles `label.del`: removes the label, if bound, and announces the
    /// full label map.
    pub fn handle_label_del(&mut self, payload: &JVal) -> (r: (
        Result<(), String>,
        Vec<crate::types::Event>,
    ))
        requires
            old(self).wf(),
        ensures
            final(self).wf(),
            final(self).host_id == old(self).host_id,
            final(self).lattice == old(self).lattice,
            final(self).friendly_name == old(self).friendly_name,
            final(self).version == old(self).version,
            final(self).components == old(self).components,
            final(self).providers == old(self).providers,
            final(self).links == old(self).links,
            final(self).claims_components == old(self).claims_components,
            final(self).claims_providers == old(self).claims_providers,
            final(self).registry_config == old(self).registry_config,
            final(self).stop_deadline == old(self).stop_deadline,
            ({
                let j = payload.jx();
                if !crate::cmd::label_del_decodable(j) {
                    &&& r.0 is Err
                    &&& r.1.deep_view().len() == 0
                    &&& final(self).labels == old(self).labels
                } else {
                    let k = crate::json::jx_get_str(j->Obj_0, "key"@)->0;
                    &&& r.0 is Ok
                    &&& final(self).labels_map() == old(self).labels_map().remove(k)
                    &&& r.1.deep_view().len() == 1
                    &&& r.1.deep_view()[0].0 == "labels_changed"@
                    &&& r.1.deep_view()[0].1 == crate::event::labels_changed_data(
                        old(self).host_id@,
                        final(self).labels.deep_view(),
                    )
                }
            }),
    {
        let key = match crate::cmd::decode_label_del(payload) {
            Ok(k) => k,
            Err(msg) => {
                return (Err(msg), Vec::new());
            },
        };
        crate::kvlist::kv_remove(&mut self.labels, &key);
        proof {
            assert(self.components_map() == old(self).components_map());
        }
        let data = crate::event::labels_changed(&self.host_id, &self.labels);
        let mut events: Vec<crate::types::Event> = Vec::new();
        let ghost datax = data.jx();
        events.push((jstr("labels_changed"), data));
        proof {
            assert(events.deep_view() =~= Seq::<(Seq<char>, Jx)>::empty().push(
                ("labels_changed"@, datax),
            ));
        }
        (Ok(()), events)
    }
}

/// The reply to `host.ping`: the host's identity, uptime, labels, version,
/// friendly name and lattice.
pub open spec fn ping_data(
    host_id: Seq<char>,
    uptime_seconds: u64,
    labels: Seq<(Seq<char>, Seq<char>)>,
    version: Seq<char>,
    friendly_name: Seq<char>,
    lattice: Seq<char>,
) -> Jx {
    Jx::Obj(
        seq![
            ("id"@, Jx::Str(host_id)),
            ("uptime_seconds"@, Jx::UInt(uptime_seconds)),
            ("labels"@, Jx::Obj(crate::event::strmap_jx(labels))),
            ("version"@, Jx::Str(version)),
            ("friendly_name"@, Jx::Str(friendly_name)),
            ("lattice"@, Jx::Str(lattice)),
        ],
    )
}

/// One component in the inventory.
pub open spec fn comp_inv_jx(id: Seq<char>, c: crate::types::ComponentSpecX) -> Jx {
    Jx::Obj(
        seq![
            ("id"@, Jx::Str(id)),
            ("image_ref"@, Jx::Str(c.image_ref)),
            ("max_instances"@, Jx::UInt(c.max_instances as u64)),
            ("annotations"@, Jx::Obj(crate::event::strmap_jx(c.annotations))),
        ],
    )
}

/// One provider in the inventory.
pub open spec fn prov_inv_jx(id: Seq<char>, p: crate::types::ProviderInstanceX) -> Jx {
    Jx::Obj(
        seq![
            ("id"@, Jx::Str(id)),
            ("image_ref"@, Jx::Str(p.image_ref)),
            ("annotations"@, Jx::Obj(crate::event::strmap_jx(p.annotations))),
        ],
    )
}

/// The reply to `host.get`: the host's identity and everything it runs.
pub open spec fn inventory_data(
    host_id: Seq<char>,
    friendly_name: Seq<char>,
    version: Seq<char>,
    labels: Seq<(Seq<char>, Seq<char>)>,
    components: Seq<(Seq<char>, crate::types::ComponentSpecX)>,
    providers: Seq<(Seq<char>, crate::types::ProviderInstanceX)>,
) -> Jx {
    Jx::Obj(
        seq![
            ("host_id"@, Jx::Str(host_id)),
            ("friendly_name"@, Jx::Str(friendly_name)),
            ("version"@, Jx::Str(version)),
            ("labels"@, Jx::Obj(crate::event::strmap_jx(labels))),
            (
                "components"@,
                Jx::Arr(
                    components.map_values(
                        |p: (Seq<char>, crate::types::ComponentSpecX)| comp_inv_jx(p.0, p.1),
                    ),
                ),
            ),
            (
                "providers"@,
                Jx::Arr(
                    providers.map_values(
                        |p: (Seq<char>, crate::types::ProviderInstanceX)| prov_inv_jx(p.0, p.1),
                    ),
                ),
            ),
        ],
    )
}

impl crate::host::HostState {
    /// Handles `host.ping`. The caller measures the uptime; the handler only
    /// reports it.
    pub fn handle_ping(&self, uptime_seconds: u64) -> (r: JVal)
        ensures
            r.jx() == ping_data(
                self.host_id@,
                uptime_seconds,
                self.labels.deep_view(),
                self.version@,
                self.friendly_name@,
                self.lattice@,
            ),
    {
        let mut fields: Vec<(String, JVal)> = Vec::new();
        fields.push((jstr("id"), JVal::Str(self.host_id.clone())));
        fields.push((jstr("uptime_seconds"), JVal::UInt(uptime_seconds)));
        fields.push((jstr("labels"), crate::event::strmap_jval(&self.labels)));
        fields.push((jstr("version"), JVal::Str(self.version.clone())));
        fields.push((jstr("friendly_name"), JVal::Str(self.friendly_name.clone())));
        fields.push((jstr("lattice"), JVal::Str(self.lattice.clone())));
        proof {
            crate::event::lemma_obj_jx(fields);
            assert(fields.deep_view() =~= ping_data(
                self.host_id@,
                uptime_seconds,
                self.labels.deep_view(),
                self.version@,
                self.friendly_name@,
                self.lattice@,
            )->Obj_0);
        }
        JVal::Obj(fields)
    }

    /// Handles `host.get`: reports the inventory of this host.
    pub fn handle_inventory(&self) -> (r: JVal)
        ensures
            r.jx() == inventory_data(
                self.host_id@,
                self.friendly_name@,
                self.version@,
                self.labels.deep_view(),
                self.components.deep_view(),
                self.providers.deep_view(),
            ),
    {
        let ghost ctarget = self.components.deep_view().map_values(
            |p: (Seq<char>, crate::types::ComponentSpecX)| comp_inv_jx(p.0, p.1),
        );
        let mut comps: Vec<JVal> = Vec::new();
        let mut i: usize = 0;
        while i < self.components.len()
            invariant
                i <= self.components.len(),
                self.components.deep_view().len() == self.components.len(),
                ctarget == self.components.deep_view().map_values(
                    |p: (Seq<char>, crate::types::ComponentSpecX)| comp_inv_jx(p.0, p.1),
                ),
                comps.deep_view() =~= ctarget.take(i as int),
            decreases self.components.len() - i,
        {
            let entry = &self.components[i];
            let mut fields: Vec<(String, JVal)> = Vec::new();
            fields.push((jstr("id"), JVal::Str(entry.0.clone())));
            fields.push((jstr("image_ref"), JVal::Str(entry.1.image_ref.clone())));
            fields.push((jstr("max_instances"), JVal::UInt(entry.1.max_instances as u64)));
            fields.push((jstr("annotations"), crate::event::strmap_jval(&entry.1.annotations)));
            proof {
                crate::event::lemma_obj_jx(fields);
                assert(fields.deep_view() =~= comp_inv_jx(
                    self.components.deep_view()[i as int].0,
                    self.components.deep_view()[i as int].1,
                )->Obj_0);
            }
            let ghost before = comps.deep_view();
            comps.push(JVal::Obj(fields));
            proof {
                assert(comps.deep_view() =~= before.push(ctarget[i as int]));
            }
            i = i + 1;
        }
        proof {
            assert(ctarget.take(ctarget.len() as int) =~= ctarget);
        }
        let ghost ptarget = self.providers.deep_view().map_values(
            |p: (Seq<char>, crate::types::ProviderInstanceX)| prov_inv_jx(p.0, p.1),
        );
        let mut provs: Vec<JVal> = Vec::new();
        let mut k: usize = 0;
        while k < self.providers.len()
            invariant
                k <= self.providers.len(),
                self.providers.deep_view().len() == self.providers.len(),
                ptarget == self.providers.deep_view().map_values(
                    |p: (Seq<char>, crate::types::ProviderInstanceX)| prov_inv_jx(p.0, p.1),
                ),
                provs.deep_view() =~= ptarget.take(k as int),
            decreases self.providers.len() - k,
        {
            let entry = &self.providers[k];
            let mut fields: Vec<(String, JVal)> = Vec::new();
            fields.push((jstr("id"), JVal::Str(entry.0.clone())));
            fields.push((jstr("image_ref"), JVal::Str(entry.1.image_ref.clone())));
            fields.push((jstr("annotations"), crate::event::strmap_jval(&entry.1.annotations)));
            proof {
                crate::event::lemma_obj_jx(fields);
                assert(fields.deep_view() =~= prov_inv_jx(
                    self.providers.deep_view()[k as int].0,
                    self.providers.deep_view()[k as int].1,
                )->Obj_0);
            }
            let ghost before = provs.deep_view();
            provs.push(JVal::Obj(fields));
            proof {
                assert(provs.deep_view() =~= before.push(ptarget[k as int]));
            }
            k = k + 1;
        }
        proof {
            assert(ptarget.take(ptarget.len() as int) =~= ptarget);
        }
        let mut fields: Vec<(String, JVal)> = Vec::new();
        fields.push((jstr("host_id"), JVal::Str(self.host_id.clone())));
        fields.push((jstr("friendly_name"), JVal::Str(self.friendly_name.clone())));
        fields.push((jstr("version"), JVal::Str(self.version.clone())));
        fields.push((jstr("labels"), crate::event::strmap_jval(&self.labels)));
        proof {
            crate::event::lemma_arr_jx(comps);
        }
        fields.push((jstr("components"), JVal::Arr(comps)));
        proof {
            crate::event::lemma_arr_jx(provs);
        }
        fields.push((jstr("providers"), JVal::Arr(provs)));
        proof {
            crate::event::lemma_obj_jx(fields);
            assert(fields.deep_view() =~= inventory_data(
                self.host_id@,
                self.friendly_name@,
                self.version@,
                self.labels.deep_view(),
                self.components.deep_view(),
                self.providers.deep_view(),
            )->Obj_0);
        }
        JVal::Obj(fields)
    }

    /// Handles `registry.put`: replaces the registry credential map.
    pub fn handle_registries_put(&mut self, payload: &JVal) -> (r: Result<(), String>)
        requires
            old(self).wf(),
        ensures
            final(self).wf(),
            final(self).host_id == old(self).host_id,
            final(self).lattice == old(self).lattice,
            final(self).friendly_name == old(self).friendly_name,
            final(self).version == old(self).version,
            final(self).labels == old(self).labels,
            final(self).components == old(self).components,
            final(self).providers == old(self).providers,
            final(self).links == old(self).links,
            final(self).claims_components == old(self).claims_components,
            final(self).claims_providers == old(self).claims_providers,
            final(self).stop_deadline == old(self).stop_deadline,
            ({
                let j = payload.jx();
                if !(j is Obj) || crate::cmd::regmap_fold(j->Obj_0) is None {
                    r is Err && final(self).registry_config == old(self).registry_config
                } else {
                    r is Ok && crate::cmd::regmap_fold(j->Obj_0) == Some(
                        crate::kvlist::kvl_map(final(self).registry_config.deep_view()),
                    )
                }
            }),
    {
        let m = match crate::cmd::decode_registry_put(payload) {
            Ok(m) => m,
            Err(msg) => {
                return Err(msg);
            },
        };
        self.registry_config = m;
        proof {
            assert(self.components_map() == old(self).components_map());
        }
        Ok(())
    }

    /// Handles `link.get`: the raw reply bytes listing every link, outside the
    /// envelope.
    pub fn handle_links(&self) -> (r: Vec<u8>)
        ensures
            r@ == json_encoded(
                Jx::Obj(
                    seq![
                        (
                            "links"@,
                            Jx::Arr(
                                self.links.deep_view().map_values(
                                    |l: crate::types::LinkX| crate::event::linkdef_set_data(l),
                                ),
                            ),
                        ),
                    ],
                ),
            ),
    {
        let ghost target = self.links.deep_view().map_values(
            |l: crate::types::LinkX| crate::event::linkdef_set_data(l),
        );
        let mut arr: Vec<JVal> = Vec::new();
        let mut i: usize = 0;
        while i < self.links.len()
            invariant
                i <= self.links.len(),
                self.links.deep_view().len() == self.links.len(),
                target == self.links.deep_view().map_values(
                    |l: crate::types::LinkX| crate::event::linkdef_set_data(l),
                ),
                arr.deep_view() =~= target.take(i as int),
            decreases self.links.len() - i,
        {
            let lv = crate::event::linkdef_set(&self.links[i]);
            let ghost before = arr.deep_view();
            arr.push(lv);
            proof {
                assert(arr.deep_view() =~= before.push(target[i as int]));
            }
            i = i + 1;
        }
        proof {
            assert(target.take(target.len() as int) =~= target);
        }
        let mut fields: Vec<(String, JVal)> = Vec::new();
        proof {
            crate::event::lemma_arr_jx(arr);
        }
        fields.push((jstr("links"), JVal::Arr(arr)));
        proof {
            crate::event::lemma_obj_jx(fields);
            assert(fields.deep_view() =~= seq![("links"@, Jx::Arr(target))]);
        }
        json_encode(&JVal::Obj(fields))
    }
}

/// One record in the `claims.get` reply.
pub open spec fn claims_record_jx(c: crate::types::ClaimsX) -> Jx {
    match c.metadata {
        Some(m) => Jx::Obj(
            seq![
                ("subject"@, Jx::Str(c.subject)),
                ("issuer"@, Jx::Str(c.issuer)),
                ("not_before_human"@, Jx::Str(crate::event::human_time(c.not_before))),
                ("expires_human"@, Jx::Str(crate::event::human_time(c.expires))),
                ("name"@, crate::event::opt_str_jx(m.name)),
                ("version"@, crate::event::opt_str_jx(m.version)),
                ("revision"@, crate::event::opt_u64_jx(m.revision)),
                (
                    "call_alias"@,
                    crate::event::opt_str_jx(m.call_alias),
                ),
            ],
        ),
        None => Jx::Obj(
            seq![
                ("subject"@, Jx::Str(c.subject)),
                ("issuer"@, Jx::Str(c.issuer)),
                ("not_before_human"@, Jx::Str(crate::event::human_time(c.not_before))),
                ("expires_human"@, Jx::Str(crate::event::human_time(c.expires))),
            ],
        ),
    }
}

impl crate::host::HostState {
    /// Builds one claims record.
    fn claims_record(&self, c: &crate::types::Claims) -> (r: JVal)
        ensures
            r.jx() == claims_record_jx(c.deep_view()),
    {
        let mut fields: Vec<(String, JVal)> = Vec::new();
        fields.push((jstr("subject"), JVal::Str(c.subject.clone())));
        fields.push((jstr("issuer"), JVal::Str(c.issuer.clone())));
        fields.push(
            (jstr("not_before_human"), JVal::Str(crate::event::human_time_str(&c.not_before))),
        );
        fields.push((jstr("expires_human"), JVal::Str(crate::event::human_time_str(&c.expires))));
        match &c.metadata {
            Some(m) => {
                fields.push((jstr("name"), crate::event::opt_str_jval(&m.name)));
                fields.push((jstr("version"), crate::event::opt_str_jval(&m.version)));
                let revision = match m.revision {
                    Some(n) => JVal::UInt(n),
                    None => JVal::Null,
                };
                fields.push((jstr("revision"), revision));
                fields.push((jstr("call_alias"), crate::event::opt_str_jval(&m.call_alias)));
            },
            None => {},
        }
        proof {
            crate::event::lemma_obj_jx(fields);
            assert(fields.deep_view() =~= claims_record_jx(c.deep_view())->Obj_0);
        }
        JVal::Obj(fields)
    }

    /// Handles `claims.get`: the merged list of all component and provider
    /// claims this host knows, component claims first.
    pub fn handle_claims(&self) -> (r: JVal)
        ensures
            r.jx() == Jx::Obj(
                seq![
                    (
                        "claims"@,
                        Jx::Arr(
                            self.claims_components.deep_view().map_values(
                                |p: (Seq<char>, crate::types::ClaimsX)| claims_record_jx(p.1),
                            ) + self.claims_providers.deep_view().map_values(
                                |p: (Seq<char>, crate::types::ClaimsX)| claims_record_jx(p.1),
                            ),
                        ),
                    ),
                ],
            ),
    {
        let ghost ctarget = self.claims_components.deep_view().map_values(
            |p: (Seq<char>, crate::types::ClaimsX)| claims_record_jx(p.1),
        );
        let ghost ptarget = self.claims_providers.deep_view().map_values(
            |p: (Seq<char>, crate::types::ClaimsX)| claims_record_jx(p.1),
        );
        let mut arr: Vec<JVal> = Vec::new();
        let mut i: usize = 0;
        while i < self.claims_components.len()
            invariant
                i <= self.claims_components.len(),
                self.claims_components.deep_view().len() == self.claims_components.len(),
                ctarget == self.claims_components.deep_view().map_values(
                    |p: (Seq<char>, crate::types::ClaimsX)| claims_record_jx(p.1),
                ),
                arr.deep_view() =~= ctarget.take(i as int),
            decreases self.claims_components.len() - i,
        {
            let rec = self.claims_record(&self.claims_components[i].1);
            let ghost before = arr.deep_view();
            arr.push(rec);
            proof {
                assert(arr.deep_view() =~= before.push(ctarget[i as int]));
            }
            i = i + 1;
        }
        proof {
            assert(ctarget.take(ctarget.len() as int) =~= ctarget);
        }
        let mut k: usize = 0;
        while k < self.claims_providers.len()
            invariant
                k <= self.claims_providers.len(),
                self.claims_providers.deep_view().len() == self.claims_providers.len(),
                ctarget == self.claims_components.deep_view().map_values(
                    |p: (Seq<char>, crate::types::ClaimsX)| claims_record_jx(p.1),
                ),
                ptarget == self.claims_providers.deep_view().map_values(
                    |p: (Seq<char>, crate::types::ClaimsX)| claims_record_jx(p.1),
                ),
                arr.deep_view() =~= ctarget + ptarget.take(k as int),
            decreases self.claims_providers.len() - k,
        {
            let rec = self.claims_record(&self.claims_providers[k].1);
            let ghost before = arr.deep_view();
            arr.push(rec);
            proof {
                assert(arr.deep_view() =~= before.push(ptarget[k as int]));
            }
            k = k + 1;
        }
        proof {
            assert(ptarget.take(ptarget.len() as int) =~= ptarget);
        }
        let mut fields: Vec<(String, JVal)> = Vec::new();
        proof {
            crate::event::lemma_arr_jx(arr);
        }
        fields.push((jstr("claims"), JVal::Arr(arr)));
        proof {
            crate::event::lemma_obj_jx(fields);
            assert(fields.deep_view() =~= seq![("claims"@, Jx::Arr(ctarget + ptarget))]);
        }
        JVal::Obj(fields)
    }

    /// Handles `link.put`: validates the link, replaces any link with the same
    /// key, persists it in the data bucket, and announces `linkdef_set`; a
    /// validation failure announces `linkdef_set_failed` with the reply's
    /// error. Overwriting is permitted, so two puts of one key announce
    /// `linkdef_set` twice.
    pub fn handle_link_put(&mut self, payload: &JVal) -> (r: (
        Result<(), String>,
        Vec<crate::types::Event>,
        Vec<crate::types::StoreOp>,
    ))
        requires
            old(self).wf(),
        ensures
            final(self).wf(),
            final(self).host_id == old(self).host_id,
            final(self).lattice == old(self).lattice,
            final(self).friendly_name == old(self).friendly_name,
            final(self).version == old(self).version,
            final(self).labels == old(self).labels,
            final(self).components == old(self).components,
            final(self).providers == old(self).providers,
            final(self).claims_components == old(self).claims_components,
            final(self).claims_providers == old(self).claims_providers,
            final(self).registry_config == old(self).registry_config,
            final(self).stop_deadline == old(self).stop_deadline,
            ({
                let j = payload.jx();
                if !crate::cmd::link_put_decodable(j) {
                    &&& r.0 is Err
                    &&& r.1.deep_view().len() == 0
                    &&& r.2.deep_view().len() == 0
                    &&& final(self).links == old(self).links
                } else {
                    let f = j->Obj_0;
                    let l = crate::types::LinkX {
                        source_id: crate::json::jx_get_str(f, "source_id"@)->0,
                        target: crate::json::jx_get_str(f, "target"@)->0,
                        name: crate::cmd::link_name_val(f),
                        wit_namespace: crate::json::jx_get_str(f, "wit_namespace"@)->0,
                        wit_package: crate::json::jx_get_str(f, "wit_package"@)->0,
                        interfaces: crate::cmd::opt_strarr_val(f, "interfaces"@),
                        source_config: crate::cmd::opt_strarr_val(f, "source_config"@),
                        target_config: crate::cmd::opt_strarr_val(f, "target_config"@),
                    };
                    if l.source_id.len() == 0 || l.target.len() == 0 || l.wit_namespace.len() == 0
                        || l.wit_package.len() == 0 {
                        &&& r.0 is Err
                        &&& r.0->Err_0@.len() > 0
                        &&& r.1.deep_view().len() == 1
                        &&& r.1.deep_view()[0].0 == "linkdef_set_failed"@
                        &&& r.1.deep_view()[0].1 == crate::event::linkdef_set_failed_data(
                            l,
                            r.0->Err_0@,
                        )
                        &&& r.2.deep_view().len() == 0
                        &&& final(self).links == old(self).links
                    } else {
                        &&& r.0 is Ok
                        &&& final(self).links.deep_view() == crate::host::links_without(
                            old(self).links.deep_view(),
                            crate::types::link_key_of(l),
                        ).push(l)
                        &&& r.1.deep_view().len() == 1
                        &&& r.1.deep_view()[0].0 == "linkdef_set"@
                        &&& r.1.deep_view()[0].1 == crate::event::linkdef_set_data(l)
                        &&& r.2.deep_view() == seq![
                            crate::types::StoreOpX::PutData(
                                linkdef_store_key(crate::types::link_key_of(l)),
                                crate::json::json_encoded(crate::event::linkdef_set_data(l)),
                            ),
                        ]
                    }
                }
            }),
    {
        proof {
            reveal_strlit("link source_id, target, wit_namespace and wit_package must not be empty");
        }
        let link = match crate::cmd::decode_link_put(payload) {
            Ok(l) => l,
            Err(msg) => {
                return (Err(msg), Vec::new(), Vec::new());
            },
        };
        if link.source_id.as_str().is_empty() || link.target.as_str().is_empty()
            || link.wit_namespace.as_str().is_empty() || link.wit_package.as_str().is_empty() {
            let msg = jstr(
                "link source_id, target, wit_namespace and wit_package must not be empty",
            );
            let data = crate::event::linkdef_set_failed(&link, &msg);
            let mut events: Vec<crate::types::Event> = Vec::new();
            let ghost datax = data.jx();
            events.push((jstr("linkdef_set_failed"), data));
            proof {
                assert(events.deep_view() =~= Seq::<(Seq<char>, Jx)>::empty().push(
                    ("linkdef_set_failed"@, datax),
                ));
            }
            return (Err(msg), events, Vec::new());
        }
        let data = crate::event::linkdef_set(&link);
        let mut events: Vec<crate::types::Event> = Vec::new();
        let ghost datax = data.jx();
        events.push((jstr("linkdef_set"), data));
        proof {
            assert(events.deep_view() =~= Seq::<(Seq<char>, Jx)>::empty().push(
                ("linkdef_set"@, datax),
            ));
        }
        let key = jstr("LINKDEF_").concat(link.source_id.as_str()).concat("_").concat(
            link.name.as_str(),
        ).concat("_").concat(link.wit_namespace.as_str()).concat("_").concat(
            link.wit_package.as_str(),
        );
        let bytes = json_encode(&crate::event::linkdef_set(&link));
        let mut ops: Vec<crate::types::StoreOp> = Vec::new();
        let ghost keyx = key@;
        let ghost bytesx = bytes@;
        ops.push(crate::types::StoreOp::PutData(key, bytes));
        proof {
            assert(ops.deep_view() =~= Seq::<crate::types::StoreOpX>::empty().push(
                crate::types::StoreOpX::PutData(keyx, bytesx),
            ));
        }
        crate::host::links_put(&mut self.links, link);
        proof {
            assert(self.components_map() == old(self).components_map());
        }
        (Ok(()), events, ops)
    }

    /// Handles `link.del`: removes the link, persists the removal, and
    /// announces `linkdef_deleted` — with the link's target and interfaces
    /// where it existed, degraded to the identifying fields where it did not.
    /// Deleting an absent link is a success.
    pub fn handle_link_del(&mut self, payload: &JVal) -> (r: (
        Result<(), String>,
        Vec<crate::types::Event>,
        Vec<crate::types::StoreOp>,
    ))
        requires
            old(self).wf(),
        ensures
            final(self).wf(),
            final(self).host_id == old(self).host_id,
            final(self).lattice == old(self).lattice,
            final(self).friendly_name == old(self).friendly_name,
            final(self).version == old(self).version,
            final(self).labels == old(self).labels,
            final(self).components == old(self).components,
            final(self).providers == old(self).providers,
            final(self).claims_components == old(self).claims_components,
            final(self).claims_providers == old(self).claims_providers,
            final(self).registry_config == old(self).registry_config,
            final(self).stop_deadline == old(self).stop_deadline,
            ({
                let j = payload.jx();
                if !crate::cmd::link_del_decodable(j) {
                    &&& r.0 is Err
                    &&& r.1.deep_view().len() == 0
                    &&& r.2.deep_view().len() == 0
                    &&& final(self).links == old(self).links
                } else {
                    let f = j->Obj_0;
                    let k = crate::types::LinkKeyX {
                        source_id: crate::json::jx_get_str(f, "source_id"@)->0,
                        name: crate::cmd::link_name_val(f),
                        wit_namespace: crate::json::jx_get_str(f, "wit_namespace"@)->0,
                        wit_package: crate::json::jx_get_str(f, "wit_package"@)->0,
                    };
                    &&& r.0 is Ok
                    &&& final(self).links.deep_view() == crate::host::links_without(
                        old(self).links.deep_view(),
                        k,
                    )
                    &&& forall|i: int|
                        0 <= i < final(self).links.deep_view().len() ==> !crate::types::link_matches(
                            final(self).links.deep_view()[i],
                            k,
                        )
                    &&& r.1.deep_view().len() == 1
                    &&& r.1.deep_view()[0].0 == "linkdef_deleted"@
                    &&& (if exists|i: int|
                        0 <= i < old(self).links.deep_view().len() && crate::types::link_matches(
                            old(self).links.deep_view()[i],
                            k,
                        ) {
                        exists|l: crate::types::LinkX|
                            (exists|i: int|
                                0 <= i < old(self).links.deep_view().len() && old(
                                    self,
                                ).links.deep_view()[i] == l) && crate::types::link_matches(l, k)
                                && r.1.deep_view()[0].1 == crate::event::linkdef_deleted_data(
                                k.source_id,
                                Some(l.target),
                                k.name,
                                k.wit_namespace,
                                k.wit_package,
                                Some(l.interfaces),
                            )
                    } else {
                        r.1.deep_view()[0].1 == crate::event::linkdef_deleted_data(
                            k.source_id,
                            None,
                            k.name,
                            k.wit_namespace,
                            k.wit_package,
                            None,
                        )
                    })
                    &&& r.2.deep_view() == seq![
                        crate::types::StoreOpX::DelData(linkdef_store_key(k)),
                    ]
                }
            }),
    {
        let key = match crate::cmd::decode_link_del(payload) {
            Ok(k) => k,
            Err(msg) => {
                return (Err(msg), Vec::new(), Vec::new());
            },
        };
        let removed = crate::host::links_del_key(&mut self.links, &key);
        proof {
            assert(self.components_map() == old(self).components_map());
        }
        let data = match &removed {
            Some(l) => crate::event::linkdef_deleted(
                &key.source_id,
                Some(&l.target),
                &key.name,
                &key.wit_namespace,
                &key.wit_package,
                Some(&l.interfaces),
            ),
            None => crate::event::linkdef_deleted(
                &key.source_id,
                None,
                &key.name,
                &key.wit_namespace,
                &key.wit_package,
                None,
            ),
        };
        let mut events: Vec<crate::types::Event> = Vec::new();
        let ghost datax = data.jx();
        events.push((jstr("linkdef_deleted"), data));
        proof {
            assert(events.deep_view() =~= Seq::<(Seq<char>, Jx)>::empty().push(
                ("linkdef_deleted"@, datax),
            ));
        }
        let skey = jstr("LINKDEF_").concat(key.source_id.as_str()).concat("_").concat(
            key.name.as_str(),
        ).concat("_").concat(key.wit_namespace.as_str()).concat("_").concat(
            key.wit_package.as_str(),
        );
        let mut ops: Vec<crate::types::StoreOp> = Vec::new();
        let ghost skeyx = skey@;
        ops.push(crate::types::StoreOp::DelData(skey));
        proof {
            assert(ops.deep_view() =~= Seq::<crate::types::StoreOpX>::empty().push(
                crate::types::StoreOpX::DelData(skeyx),
            ));
        }
        (Ok(()), events, ops)
    }

    /// Handles `config.put`: validates that the payload is a JSON map of
    /// strings, passes the raw bytes through to the config bucket, and
    /// announces `config_set`.
    pub fn handle_config_put(&self, name: &String, payload: &Vec<u8>) -> (r: (
        Result<(), String>,
        Vec<crate::types::Event>,
        Vec<crate::types::StoreOp>,
    ))
        requires
            self.wf(),
        ensures
            ({
                let decoded = crate::json::json_decoded(payload@);
                if name@.len() == 0 || decoded is None || !(decoded->0 is Obj) || crate::json::strmap_fold(
                    decoded->0->Obj_0,
                ) is None {
                    r.0 is Err && r.1.deep_view().len() == 0 && r.2.deep_view().len() == 0
                } else {
                    &&& r.0 is Ok
                    &&& r.1.deep_view() == seq![
                        ("config_set"@, crate::event::config_event_data(name@)),
                    ]
                    &&& r.2.deep_view() == seq![
                        crate::types::StoreOpX::PutConfig(name@, payload@),
                    ]
                }
            }),
    {
        proof {
            reveal_strlit("config name must not be empty");
            reveal_strlit("config payload must be a JSON map of strings");
        }
        if name.as_str().is_empty() {
            return (Err(jstr("config name must not be empty")), Vec::new(), Vec::new());
        }
        let jv = match crate::json::json_decode(payload) {
            Ok(jv) => jv,
            Err(msg) => {
                return (Err(msg), Vec::new(), Vec::new());
            },
        };
        match crate::json::jval_strmap(&jv) {
            Some(_) => {},
            None => {
                return (
                    Err(jstr("config payload must be a JSON map of strings")),
                    Vec::new(),
                    Vec::new(),
                );
            },
        }
        let data = crate::event::config_set(name);
        let mut events: Vec<crate::types::Event> = Vec::new();
        let ghost datax = data.jx();
        events.push((jstr("config_set"), data));
        proof {
            assert(events.deep_view() =~= Seq::<(Seq<char>, Jx)>::empty().push(
                ("config_set"@, datax),
            ));
        }
        let mut ops: Vec<crate::types::StoreOp> = Vec::new();
        let mut bytes: Vec<u8> = Vec::new();
        bytes.extend_from_slice(payload.as_slice());
        proof {
            assert(bytes@ =~= payload@);
        }
        ops.push(crate::types::StoreOp::PutConfig(name.clone(), bytes));
        proof {
            assert(ops.deep_view() =~= Seq::<crate::types::StoreOpX>::empty().push(
                crate::types::StoreOpX::PutConfig(name@, payload@),
            ));
        }
        (Ok(()), events, ops)
    }

    /// Handles `config.del`: passes the removal through to the config bucket
    /// and announces `config_deleted`; deleting an absent name is a success.
    pub fn handle_config_delete(&self, name: &String) -> (r: (
        Result<(), String>,
        Vec<crate::types::Event>,
        Vec<crate::types::StoreOp>,
    ))
        ensures
            ({
                if name@.len() == 0 {
                    r.0 is Err && r.1.deep_view().len() == 0 && r.2.deep_view().len() == 0
                } else {
                    &&& r.0 is Ok
                    &&& r.1.deep_view() == seq![
                        ("config_deleted"@, crate::event::config_event_data(name@)),
                    ]
                    &&& r.2.deep_view() == seq![crate::types::StoreOpX::DelConfig(name@)]
                }
            }),
    {
        proof {
            reveal_strlit("config name must not be empty");
        }
        if name.as_str().is_empty() {
            return (Err(jstr("config name must not be empty")), Vec::new(), Vec::new());
        }
        let data = crate::event::config_deleted(name);
        let mut events: Vec<crate::types::Event> = Vec::new();
        let ghost datax = data.jx();
        events.push((jstr("config_deleted"), data));
        proof {
            assert(events.deep_view() =~= Seq::<(Seq<char>, Jx)>::empty().push(
                ("config_deleted"@, datax),
            ));
        }
        let mut ops: Vec<crate::types::StoreOp> = Vec::new();
        ops.push(crate::types::StoreOp::DelConfig(name.clone()));
        proof {
            assert(ops.deep_view() =~= Seq::<crate::types::StoreOpX>::empty().push(
                crate::types::StoreOpX::DelConfig(name@),
            ));
        }
        (Ok(()), events, ops)
    }
}

/// A dispatcher's reply: encoded bytes to send back, the name of a
/// configuration entry whose raw bytes the transport must send back, or
/// nothing — an auction this host declined is answered by silence.
pub enum CtlReply {
    Bytes(Vec<u8>),
    ConfigValue(String),
    NoReply,
}

/// View of [`CtlReply`].
pub enum CtlReplyX {
    Bytes(Seq<u8>),
    ConfigValue(Seq<char>),
    NoReply,
}

impl DeepView for CtlReply {
    type V = CtlReplyX;

    open spec fn deep_view(&self) -> CtlReplyX {
        match self {
            CtlReply::Bytes(b) => CtlReplyX::Bytes(b@),
            CtlReply::ConfigValue(n) => CtlReplyX::ConfigValue(n@),
            CtlReply::NoReply => CtlReplyX::NoReply,
        }
    }
}

/// Everything one control message produces: the reply, the lifecycle events
/// to publish, and the store operations to apply.
pub struct CtlOutcome {
    pub reply: CtlReply,
    pub events: Vec<crate::types::Event>,
    pub ops: Vec<crate::types::StoreOp>,
}

/// An error-envelope reply carrying some message.
pub open spec fn is_error_reply(r: CtlReplyX) -> bool {
    exists|m: Seq<char>| r == CtlReplyX::Bytes(json_encoded(error_envelope_jx(m)))
}

/// The success envelope whose response is the given value.
pub open spec fn success_reply(resp: Jx) -> CtlReplyX {
    CtlReplyX::Bytes(json_encoded(success_envelope_jx(Some(resp))))
}

/// The empty acknowledgement object that action verbs reply with.
pub open spec fn ack_jx() -> Jx {
    Jx::Obj(Seq::empty())
}

/// Builds the empty acknowledgement.
fn ack_jval() -> (r: JVal)
    ensures
        r.jx() == ack_jx(),
{
    let fields: Vec<(String, JVal)> = Vec::new();
    proof {
        crate::event::lemma_obj_jx(fields);
        assert(fields.deep_view() =~= Seq::<(Seq<char>, Jx)>::empty());
    }
    JVal::Obj(fields)
}

/// Dispatches one control-interface message under the default permit-all
/// policy manager: parses the subject's tail, routes it, runs the verb's
/// handler, and encodes the reply. An unroutable subject is answered with the
/// error envelope naming it unsupported; a payload that does not decode is
/// answered with the error envelope carrying the decoder's message; a
/// declined auction is answered with nothing. A transport that consults a
/// remote policy manager calls the per-verb handlers itself with its own
/// decision. The contract here pins the subject routing, the envelope, and
/// the verbs the reconciliation properties rest on; each handler's own
/// contract pins its verb completely.
pub fn handle_ctl_message(
    state: &mut crate::host::HostState,
    subject: &str,
    payload: &Vec<u8>,
    policy: &crate::policy::DefaultPolicyManager,
    uptime_seconds: u64,
) -> (out: CtlOutcome)
    requires
        old(state).wf(),
    ensures
        final(state).wf(),
        final(state).host_id == old(state).host_id,
        final(state).lattice == old(state).lattice,
        final(state).friendly_name == old(state).friendly_name,
        final(state).version == old(state).version,
        ({
            let tail = crate::subject::ctl_tail(subject@);
            let decoded = crate::json::json_decoded(payload@);
            match route_of(tail) {
                CtlRoute::Unsupported => {
                    &&& out.reply.deep_view() == CtlReplyX::Bytes(
                        json_encoded(error_envelope_jx("unsupported subject"@)),
                    )
                    &&& out.events.deep_view().len() == 0
                    &&& out.ops.deep_view().len() == 0
                    &&& *final(state) == *old(state)
                },
                CtlRoute::HostPing => {
                    &&& out.reply.deep_view() == success_reply(
                        ping_data(
                            old(state).host_id@,
                            uptime_seconds,
                            old(state).labels.deep_view(),
                            old(state).version@,
                            old(state).friendly_name@,
                            old(state).lattice@,
                        ),
                    )
                    &&& out.events.deep_view().len() == 0
                    &&& out.ops.deep_view().len() == 0
                    &&& *final(state) == *old(state)
                },
                CtlRoute::HostInventory => {
                    &&& out.reply.deep_view() == success_reply(
                        inventory_data(
                            old(state).host_id@,
                            old(state).friendly_name@,
                            old(state).version@,
                            old(state).labels.deep_view(),
                            old(state).components.deep_view(),
                            old(state).providers.deep_view(),
                        ),
                    )
                    &&& out.events.deep_view().len() == 0
                    &&& out.ops.deep_view().len() == 0
                    &&& *final(state) == *old(state)
                },
                CtlRoute::ConfigGet => {
                    &&& out.reply.deep_view() == CtlReplyX::ConfigValue(tail[2])
                    &&& out.events.deep_view().len() == 0
                    &&& out.ops.deep_view().len() == 0
                    &&& *final(state) == *old(state)
                },
                CtlRoute::ScaleComponent => {
                    &&& *final(state) == *old(state)
                    &&& (match decoded {
                        None => is_error_reply(out.reply.deep_view())
                            && out.events.deep_view().len() == 0 && out.ops.deep_view().len() == 0,
                        Some(j) => if !crate::cmd::scale_decodable(j) {
                            is_error_reply(out.reply.deep_view()) && out.events.deep_view().len()
                                == 0 && out.ops.deep_view().len() == 0
                        } else {
                            let f = j->Obj_0;
                            let id = crate::json::jx_get_str(f, "component_id"@)->0;
                            let refr = crate::json::jx_get_str(f, "reference"@)->0;
                            let max = crate::json::jx_get_u64(f, "max_instances"@)->0 as u32;
                            let ann = crate::cmd::opt_strmap_val(f, "annotations"@);
                            if scale_validation_error(
                                crate::kvlist::kvl_map(old(state).components.deep_view()),
                                id,
                                refr,
                                max,
                            ) {
                                &&& is_error_reply(out.reply.deep_view())
                                &&& out.events.deep_view().len() == 1
                                &&& out.events.deep_view()[0].0 == "component_scale_failed"@
                                &&& out.ops.deep_view().len() == 0
                            } else {
                                &&& out.reply.deep_view() == success_reply(ack_jx())
                                &&& out.events.deep_view().len() == 0
                                &&& out.ops.deep_view().len() == 1
                                &&& is_component_put_op(out.ops.deep_view()[0], id, refr, max, ann)
                            }
                        },
                    })
                },
                CtlRoute::AuctionComponent => {
                    &&& *final(state) == *old(state)
                    &&& out.ops.deep_view().len() == 0
                    &&& out.events.deep_view().len() == 0
                    &&& (match decoded {
                        None => is_error_reply(out.reply.deep_view()),
                        Some(j) => if !crate::cmd::auction_decodable(
                            j,
                            "component_ref"@,
                            "component_id"@,
                        ) {
                            is_error_reply(out.reply.deep_view())
                        } else {
                            let f = j->Obj_0;
                            let id = crate::json::jx_get_str(f, "component_id"@)->0;
                            let cs = crate::cmd::opt_strmap_val(f, "constraints"@);
                            if constraints_satisfied(old(state).labels_map(), cs) && !old(
                                state,
                            ).components_map().contains_key(id) {
                                out.reply.deep_view() is Bytes
                            } else {
                                out.reply.deep_view() is NoReply
                            }
                        },
                    })
                },
                CtlRoute::AuctionProvider => {
                    &&& *final(state) == *old(state)
                    &&& out.ops.deep_view().len() == 0
                    &&& out.events.deep_view().len() == 0
                    &&& (match decoded {
                        None => is_error_reply(out.reply.deep_view()),
                        Some(j) => if !crate::cmd::auction_decodable(
                            j,
                            "provider_ref"@,
                            "provider_id"@,
                        ) {
                            is_error_reply(out.reply.deep_view())
                        } else {
                            let f = j->Obj_0;
                            let id = crate::json::jx_get_str(f, "provider_id"@)->0;
                            let cs = crate::cmd::opt_strmap_val(f, "constraints"@);
                            if constraints_satisfied(old(state).labels_map(), cs) && !old(
                                state,
                            ).providers_map().contains_key(id) {
                                out.reply.deep_view() is Bytes
                            } else {
                                out.reply.deep_view() is NoReply
                            }
                        },
                    })
                },
                CtlRoute::LinkGet => {
                    &&& *final(state) == *old(state)
                    &&& out.events.deep_view().len() == 0
                    &&& out.ops.deep_view().len() == 0
                    &&& out.reply.deep_view() == CtlReplyX::Bytes(
                        json_encoded(
                            Jx::Obj(
                                seq![
                                    (
                                        "links"@,
                                        Jx::Arr(
                                            old(state).links.deep_view().map_values(
                                                |l: crate::types::LinkX|
                                                    crate::event::linkdef_set_data(l),
                                            ),
                                        ),
                                    ),
                                ],
                            ),
                        ),
                    )
                },
                CtlRoute::LinkPut => {
                    &&& (out.reply.deep_view() is Bytes)
                    &&& (match decoded {
                        None => is_error_reply(out.reply.deep_view()) && *final(state) == *old(state)
                            && out.events.deep_view().len() == 0,
                        Some(j) => if !crate::cmd::link_put_decodable(j) {
                            is_error_reply(out.reply.deep_view()) && *final(state) == *old(state)
                                && out.events.deep_view().len() == 0
                        } else {
                            let f = j->Obj_0;
                            let valid = crate::json::jx_get_str(f, "source_id"@)->0.len() > 0
                                && crate::json::jx_get_str(f, "target"@)->0.len() > 0
                                && crate::json::jx_get_str(f, "wit_namespace"@)->0.len() > 0
                                && crate::json::jx_get_str(f, "wit_package"@)->0.len() > 0;
                            if valid {
                                &&& out.reply.deep_view() == success_reply(ack_jx())
                                &&& out.events.deep_view().len() == 1
                                &&& out.events.deep_view()[0].0 == "linkdef_set"@
                                &&& out.ops.deep_view().len() == 1
                            } else {
                                &&& is_error_reply(out.reply.deep_view())
                                &&& *final(state) == *old(state)
                                &&& out.events.deep_view().len() == 1
                                &&& out.events.deep_view()[0].0 == "linkdef_set_failed"@
                                &&& out.ops.deep_view().len() == 0
                            }
                        },
                    })
                },
                CtlRoute::LinkDel => {
                    &&& (out.reply.deep_view() is Bytes)
                    &&& (match decoded {
                        None => is_error_reply(out.reply.deep_view()) && *final(state) == *old(state)
                            && out.events.deep_view().len() == 0,
                        Some(j) => if crate::cmd::link_del_decodable(j) {
                            &&& out.reply.deep_view() == success_reply(ack_jx())
                            &&& out.events.deep_view().len() == 1
                            &&& out.events.deep_view()[0].0 == "linkdef_deleted"@
                        } else {
                            is_error_reply(out.reply.deep_view()) && *final(state) == *old(state)
                                && out.events.deep_view().len() == 0
                        },
                    })
                },
                CtlRoute::ClaimsGet => {
                    &&& *final(state) == *old(state)
                    &&& out.events.deep_view().len() == 0
                    &&& out.ops.deep_view().len() == 0
                    &&& out.reply.deep_view() == success_reply(
                        Jx::Obj(
                            seq![
                                (
                                    "claims"@,
                                    Jx::Arr(
                                        old(state).claims_components.deep_view().map_values(
                                            |p: (Seq<char>, crate::types::ClaimsX)|
                                                claims_record_jx(p.1),
                                        ) + old(state).claims_providers.deep_view().map_values(
                                            |p: (Seq<char>, crate::types::ClaimsX)|
                                                claims_record_jx(p.1),
                                        ),
                                    ),
                                ),
                            ],
                        ),
                    )
                },
                CtlRoute::HostStop => {
                    &&& out.events.deep_view().len() == 0
                    &&& out.ops.deep_view().len() == 0
                    &&& (match decoded {
                        Some(j) => if crate::cmd::stop_host_decodable(j) {
                            out.reply.deep_view() == success_reply(ack_jx())
                                && final(state).stop_deadline == crate::cmd::opt_u64_val(
                                j->Obj_0,
                                "timeout"@,
                            )
                        } else {
                            is_error_reply(out.reply.deep_view()) && *final(state) == *old(state)
                        },
                        None => is_error_reply(out.reply.deep_view()) && *final(state) == *old(state),
                    })
                },
                CtlRoute::ConfigPut => {
                    &&& *final(state) == *old(state)
                    &&& (if tail[2].len() == 0 || decoded is None || !(decoded->0 is Obj)
                        || crate::json::strmap_fold(decoded->0->Obj_0) is None {
                        is_error_reply(out.reply.deep_view()) && out.events.deep_view().len() == 0
                            && out.ops.deep_view().len() == 0
                    } else {
                        &&& out.reply.deep_view() == success_reply(ack_jx())
                        &&& out.events.deep_view() == seq![
                            ("config_set"@, crate::event::config_event_data(tail[2])),
                        ]
                        &&& out.ops.deep_view() == seq![
                            crate::types::StoreOpX::PutConfig(tail[2], payload@),
                        ]
                    })
                },
                CtlRoute::ConfigDel => {
                    &&& *final(state) == *old(state)
                    &&& (if tail[2].len() == 0 {
                        is_error_reply(out.reply.deep_view()) && out.events.deep_view().len() == 0
                            && out.ops.deep_view().len() == 0
                    } else {
                        &&& out.reply.deep_view() == success_reply(ack_jx())
                        &&& out.events.deep_view() == seq![
                            ("config_deleted"@, crate::event::config_event_data(tail[2])),
                        ]
                        &&& out.ops.deep_view() == seq![crate::types::StoreOpX::DelConfig(tail[2])]
                    })
                },
                CtlRoute::UpdateComponent => {
                    &&& *final(state) == *old(state)
                    &&& out.events.deep_view().len() == 0
                    &&& (match decoded {
                        None => is_error_reply(out.reply.deep_view()) && out.ops.deep_view().len()
                            == 0,
                        Some(j) => if !crate::cmd::update_decodable(j) {
                            is_error_reply(out.reply.deep_view()) && out.ops.deep_view().len() == 0
                        } else {
                            let f = j->Obj_0;
                            let id = crate::json::jx_get_str(f, "component_id"@)->0;
                            let newref = crate::json::jx_get_str(f, "new_reference"@)->0;
                            let components = crate::kvlist::kvl_map(
                                old(state).components.deep_view(),
                            );
                            if !components.contains_key(id) {
                                is_error_reply(out.reply.deep_view()) && out.ops.deep_view().len()
                                    == 0
                            } else if components[id].image_ref == newref {
                                out.reply.deep_view() == success_reply(ack_jx())
                                    && out.ops.deep_view().len() == 0
                            } else {
                                &&& out.reply.deep_view() == success_reply(ack_jx())
                                &&& out.ops.deep_view().len() == 1
                                &&& is_component_put_op(
                                    out.ops.deep_view()[0],
                                    id,
                                    newref,
                                    components[id].max_instances,
                                    if crate::json::jx_obj_get(f, "annotations"@) is Some {
                                        crate::cmd::opt_strmap_val(f, "annotations"@)
                                    } else {
                                        crate::kvlist::kvl_map(components[id].annotations)
                                    },
                                )
                            }
                        },
                    })
                },
                CtlRoute::StartProvider => {
                    &&& final(state).labels == old(state).labels
                    &&& final(state).components == old(state).components
                    &&& final(state).links == old(state).links
                    &&& final(state).claims_components == old(state).claims_components
                    &&& final(state).claims_providers == old(state).claims_providers
                    &&& final(state).registry_config == old(state).registry_config
                    &&& final(state).stop_deadline == old(state).stop_deadline
                    &&& out.ops.deep_view().len() == 0
                    &&& (match decoded {
                        None => is_error_reply(out.reply.deep_view()) && out.events.deep_view().len()
                            == 0 && final(state).providers == old(state).providers,
                        Some(j) => if !crate::cmd::start_provider_decodable(j) {
                            is_error_reply(out.reply.deep_view()) && out.events.deep_view().len()
                                == 0 && final(state).providers == old(state).providers
                        } else {
                            let f = j->Obj_0;
                            let id = crate::json::jx_get_str(f, "provider_id"@)->0;
                            let refr = crate::json::jx_get_str(f, "provider_ref"@)->0;
                            let ann = crate::cmd::opt_strmap_val(f, "annotations"@);
                            if id.len() == 0 || refr.len() == 0 {
                                is_error_reply(out.reply.deep_view())
                                    && out.events.deep_view().len() == 0 && final(state).providers
                                    == old(state).providers
                            } else if old(state).providers_map().contains_key(id) {
                                out.reply.deep_view() == success_reply(ack_jx())
                                    && out.events.deep_view().len() == 0 && final(state).providers
                                    == old(state).providers
                            } else {
                                &&& out.reply.deep_view() == success_reply(ack_jx())
                                &&& final(state).providers_map().contains_key(id)
                                &&& final(state).providers_map()[id].image_ref == refr
                                &&& crate::kvlist::kvl_map(
                                    final(state).providers_map()[id].annotations,
                                ) == ann
                                &&& final(state).providers_map().remove(id) == old(
                                    state,
                                ).providers_map().remove(id)
                                &&& out.events.deep_view().len() == 1
                                &&& is_provider_started_event(
                                    out.events.deep_view()[0],
                                    claims_lookup(
                                        crate::kvlist::kvl_map(
                                            old(state).claims_providers.deep_view(),
                                        ),
                                        id,
                                    ),
                                    ann,
                                    old(state).host_id@,
                                    refr,
                                    id,
                                )
                            }
                        },
                    })
                },
                CtlRoute::StopProvider => {
                    &&& final(state).labels == old(state).labels
                    &&& final(state).components == old(state).components
                    &&& final(state).links == old(state).links
                    &&& final(state).claims_components == old(state).claims_components
                    &&& final(state).claims_providers == old(state).claims_providers
                    &&& final(state).registry_config == old(state).registry_config
                    &&& final(state).stop_deadline == old(state).stop_deadline
                    &&& out.ops.deep_view().len() == 0
                    &&& (match decoded {
                        None => is_error_reply(out.reply.deep_view()) && out.events.deep_view().len()
                            == 0 && final(state).providers == old(state).providers,
                        Some(j) => if !crate::cmd::stop_provider_decodable(j) {
                            is_error_reply(out.reply.deep_view()) && out.events.deep_view().len()
                                == 0 && final(state).providers == old(state).providers
                        } else {
                            let id = crate::json::jx_get_str(j->Obj_0, "provider_id"@)->0;
                            &&& out.reply.deep_view() == success_reply(ack_jx())
                            &&& crate::kvlist::kvl_map(final(state).providers.deep_view())
                                == crate::kvlist::kvl_map(old(state).providers.deep_view()).remove(
                                id,
                            )
                            &&& (if old(state).providers_map().contains_key(id) {
                                out.events.deep_view().len() == 1 && out.events.deep_view()[0].0
                                    == "provider_stopped"@
                            } else {
                                out.events.deep_view().len() == 0
                            })
                        },
                    })
                },
                CtlRoute::LabelPut => {
                    &&& final(state).components == old(state).components
                    &&& final(state).providers == old(state).providers
                    &&& final(state).links == old(state).links
                    &&& final(state).claims_components == old(state).claims_components
                    &&& final(state).claims_providers == old(state).claims_providers
                    &&& final(state).registry_config == old(state).registry_config
                    &&& final(state).stop_deadline == old(state).stop_deadline
                    &&& out.ops.deep_view().len() == 0
                    &&& (match decoded {
                        None => is_error_reply(out.reply.deep_view()) && out.events.deep_view().len()
                            == 0 && final(state).labels == old(state).labels,
                        Some(j) => if !crate::cmd::label_put_decodable(j) {
                            is_error_reply(out.reply.deep_view()) && out.events.deep_view().len()
                                == 0 && final(state).labels == old(state).labels
                        } else {
                            let k = crate::json::jx_get_str(j->Obj_0, "key"@)->0;
                            let v = crate::json::jx_get_str(j->Obj_0, "value"@)->0;
                            &&& out.reply.deep_view() == success_reply(ack_jx())
                            &&& final(state).labels_map() == old(state).labels_map().insert(k, v)
                            &&& out.events.deep_view().len() == 1
                            &&& out.events.deep_view()[0].0 == "labels_changed"@
                            &&& out.events.deep_view()[0].1 == crate::event::labels_changed_data(
                                old(state).host_id@,
                                final(state).labels.deep_view(),
                            )
                        },
                    })
                },
                CtlRoute::LabelDel => {
                    &&& final(state).components == old(state).components
                    &&& final(state).providers == old(state).providers
                    &&& final(state).links == old(state).links
                    &&& final(state).claims_components == old(state).claims_components
                    &&& final(state).claims_providers == old(state).claims_providers
                    &&& final(state).registry_config == old(state).registry_config
                    &&& final(state).stop_deadline == old(state).stop_deadline
                    &&& out.ops.deep_view().len() == 0
                    &&& (match decoded {
                        None => is_error_reply(out.reply.deep_view()) && out.events.deep_view().len()
                            == 0 && final(state).labels == old(state).labels,
                        Some(j) => if !crate::cmd::label_del_decodable(j) {
                            is_error_reply(out.reply.deep_view()) && out.events.deep_view().len()
                                == 0 && final(state).labels == old(state).labels
                        } else {
                            let k = crate::json::jx_get_str(j->Obj_0, "key"@)->0;
                            &&& out.reply.deep_view() == success_reply(ack_jx())
                            &&& final(state).labels_map() == old(state).labels_map().remove(k)
                            &&& out.events.deep_view().len() == 1
                            &&& out.events.deep_view()[0].0 == "labels_changed"@
                            &&& out.events.deep_view()[0].1 == crate::event::labels_changed_data(
                                old(state).host_id@,
                                final(state).labels.deep_view(),
                            )
                        },
                    })
                },
                CtlRoute::RegistryPut => {
                    &&& final(state).labels == old(state).labels
                    &&& final(state).components == old(state).components
                    &&& final(state).providers == old(state).providers
                    &&& final(state).links == old(state).links
                    &&& final(state).claims_components == old(state).claims_components
                    &&& final(state).claims_providers == old(state).claims_providers
                    &&& final(state).stop_deadline == old(state).stop_deadline
                    &&& out.events.deep_view().len() == 0
                    &&& out.ops.deep_view().len() == 0
                    &&& (match decoded {
                        None => is_error_reply(out.reply.deep_view())
                            && final(state).registry_config == old(state).registry_config,
                        Some(j) => if !(j is Obj) || crate::cmd::regmap_fold(j->Obj_0) is None {
                            is_error_reply(out.reply.deep_view()) && final(state).registry_config
                                == old(state).registry_config
                        } else {
                            out.reply.deep_view() == success_reply(ack_jx())
                                && crate::cmd::regmap_fold(j->Obj_0) == Some(
                                crate::kvlist::kvl_map(final(state).registry_config.deep_view()),
                            )
                        },
                    })
                },
            }
        }),
{
    let tail = crate::subject::subject_tail(subject);
    let r = route(&tail);
    match r {
        CtlRoute::Unsupported => CtlOutcome {
            reply: CtlReply::Bytes(ctl_error_bytes(jstr("unsupported subject"))),
            events: Vec::new(),
            ops: Vec::new(),
        },
        CtlRoute::HostPing => CtlOutcome {
            reply: CtlReply::Bytes(ctl_success_bytes(Some(state.handle_ping(uptime_seconds)))),
            events: Vec::new(),
            ops: Vec::new(),
        },
        CtlRoute::HostInventory => CtlOutcome {
            reply: CtlReply::Bytes(ctl_success_bytes(Some(state.handle_inventory()))),
            events: Vec::new(),
            ops: Vec::new(),
        },
        CtlRoute::ConfigGet => CtlOutcome {
            reply: CtlReply::ConfigValue(tail[2].clone()),
            events: Vec::new(),
            ops: Vec::new(),
        },
        CtlRoute::ScaleComponent => {
            let jv = match crate::json::json_decode(payload) {
                Ok(jv) => jv,
                Err(msg) => {
                    return CtlOutcome {
                        reply: CtlReply::Bytes(ctl_error_bytes(msg)),
                        events: Vec::new(),
                        ops: Vec::new(),
                    };
                },
            };
            let decision = policy.evaluate(
                &crate::policy::PolicyRequest {
                    action: jstr("scale_component"),
                    subject_id: String::new(),
                    reference: String::new(),
                },
            );
            let (res, events, ops) = state.handle_scale_component(&jv, &decision);
            match res {
                Ok(_) => CtlOutcome {
                    reply: CtlReply::Bytes(ctl_success_bytes(Some(ack_jval()))),
                    events,
                    ops,
                },
                Err(msg) => CtlOutcome {
                    reply: CtlReply::Bytes(ctl_error_bytes(msg)),
                    events,
                    ops,
                },
            }
        },
        CtlRoute::UpdateComponent => {
            let jv = match crate::json::json_decode(payload) {
                Ok(jv) => jv,
                Err(msg) => {
                    return CtlOutcome {
                        reply: CtlReply::Bytes(ctl_error_bytes(msg)),
                        events: Vec::new(),
                        ops: Vec::new(),
                    };
                },
            };
            let (res, ops) = state.handle_update_component(&jv);
            match res {
                Ok(_) => CtlOutcome {
                    reply: CtlReply::Bytes(ctl_success_bytes(Some(ack_jval()))),
                    events: Vec::new(),
                    ops,
                },
                Err(msg) => CtlOutcome {
                    reply: CtlReply::Bytes(ctl_error_bytes(msg)),
                    events: Vec::new(),
                    ops,
                },
            }
        },
        CtlRoute::AuctionComponent => {
            let jv = match crate::json::json_decode(payload) {
                Ok(jv) => jv,
                Err(msg) => {
                    return CtlOutcome {
                        reply: CtlReply::Bytes(ctl_error_bytes(msg)),
                        events: Vec::new(),
                        ops: Vec::new(),
                    };
                },
            };
            match state.handle_auction_component(&jv) {
                Ok(Some(ack)) => CtlOutcome {
                    reply: CtlReply::Bytes(ctl_success_bytes(Some(ack))),
                    events: Vec::new(),
                    ops: Vec::new(),
                },
                Ok(None) => CtlOutcome {
                    reply: CtlReply::NoReply,
                    events: Vec::new(),
                    ops: Vec::new(),
                },
                Err(msg) => CtlOutcome {
                    reply: CtlReply::Bytes(ctl_error_bytes(msg)),
                    events: Vec::new(),
                    ops: Vec::new(),
                },
            }
        },
        CtlRoute::AuctionProvider => {
            let jv = match crate::json::json_decode(payload) {
                Ok(jv) => jv,
                Err(msg) => {
                    return CtlOutcome {
                        reply: CtlReply::Bytes(ctl_error_bytes(msg)),
                        events: Vec::new(),
                        ops: Vec::new(),
                    };
                },
            };
            match state.handle_auction_provider(&jv) {
                Ok(Some(ack)) => CtlOutcome {
                    reply: CtlReply::Bytes(ctl_success_bytes(Some(ack))),
                    events: Vec::new(),
                    ops: Vec::new(),
                },
                Ok(None) => CtlOutcome {
                    reply: CtlReply::NoReply,
                    events: Vec::new(),
                    ops: Vec::new(),
                },
                Err(msg) => CtlOutcome {
                    reply: CtlReply::Bytes(ctl_error_bytes(msg)),
                    events: Vec::new(),
                    ops: Vec::new(),
                },
            }
        },
        CtlRoute::StartProvider => {
            let jv = match crate::json::json_decode(payload) {
                Ok(jv) => jv,
                Err(msg) => {
                    return CtlOutcome {
                        reply: CtlReply::Bytes(ctl_error_bytes(msg)),
                        events: Vec::new(),
                        ops: Vec::new(),
                    };
                },
            };
            let decision = policy.evaluate(
                &crate::policy::PolicyRequest {
                    action: jstr("start_provider"),
                    subject_id: String::new(),
                    reference: String::new(),
                },
            );
            let (res, events) = state.handle_start_provider(&jv, &decision);
            match res {
                Ok(_) => CtlOutcome {
                    reply: CtlReply::Bytes(ctl_success_bytes(Some(ack_jval()))),
                    events,
                    ops: Vec::new(),
                },
                Err(msg) => CtlOutcome {
                    reply: CtlReply::Bytes(ctl_error_bytes(msg)),
                    events,
                    ops: Vec::new(),
                },
            }
        },
        CtlRoute::StopProvider => {
            let jv = match crate::json::json_decode(payload) {
                Ok(jv) => jv,
                Err(msg) => {
                    return CtlOutcome {
                        reply: CtlReply::Bytes(ctl_error_bytes(msg)),
                        events: Vec::new(),
                        ops: Vec::new(),
                    };
                },
            };
            let (res, events) = state.handle_stop_provider(&jv);
            match res {
                Ok(_) => CtlOutcome {
                    reply: CtlReply::Bytes(ctl_success_bytes(Some(ack_jval()))),
                    events,
                    ops: Vec::new(),
                },
                Err(msg) => CtlOutcome {
                    reply: CtlReply::Bytes(ctl_error_bytes(msg)),
                    events,
                    ops: Vec::new(),
                },
            }
        },
        CtlRoute::HostStop => {
            let jv = match crate::json::json_decode(payload) {
                Ok(jv) => jv,
                Err(msg) => {
                    return CtlOutcome {
                        reply: CtlReply::Bytes(ctl_error_bytes(msg)),
                        events: Vec::new(),
                        ops: Vec::new(),
                    };
                },
            };
            match state.handle_stop_host(&jv) {
                Ok(_) => CtlOutcome {
                    reply: CtlReply::Bytes(ctl_success_bytes(Some(ack_jval()))),
                    events: Vec::new(),
                    ops: Vec::new(),
                },
                Err(msg) => CtlOutcome {
                    reply: CtlReply::Bytes(ctl_error_bytes(msg)),
                    events: Vec::new(),
                    ops: Vec::new(),
                },
            }
        },
        CtlRoute::ClaimsGet => CtlOutcome {
            reply: CtlReply::Bytes(ctl_success_bytes(Some(state.handle_claims()))),
            events: Vec::new(),
            ops: Vec::new(),
        },
        CtlRoute::LinkGet => CtlOutcome {
            reply: CtlReply::Bytes(state.handle_links()),
            events: Vec::new(),
            ops: Vec::new(),
        },
        CtlRoute::LinkPut => {
            let jv = match crate::json::json_decode(payload) {
                Ok(jv) => jv,
                Err(msg) => {
                    return CtlOutcome {
                        reply: CtlReply::Bytes(ctl_error_bytes(msg)),
                        events: Vec::new(),
                        ops: Vec::new(),
                    };
                },
            };
            let (res, events, ops) = state.handle_link_put(&jv);
            match res {
                Ok(_) => CtlOutcome {
                    reply: CtlReply::Bytes(ctl_success_bytes(Some(ack_jval()))),
                    events,
                    ops,
                },
                Err(msg) => CtlOutcome {
                    reply: CtlReply::Bytes(ctl_error_bytes(msg)),
                    events,
                    ops,
                },
            }
        },
        CtlRoute::LinkDel => {
            let jv = match crate::json::json_decode(payload) {
                Ok(jv) => jv,
                Err(msg) => {
                    return CtlOutcome {
                        reply: CtlReply::Bytes(ctl_error_bytes(msg)),
                        events: Vec::new(),
                        ops: Vec::new(),
                    };
                },
            };
            let (res, events, ops) = state.handle_link_del(&jv);
            match res {
                Ok(_) => CtlOutcome {
                    reply: CtlReply::Bytes(ctl_success_bytes(Some(ack_jval()))),
                    events,
                    ops,
                },
                Err(msg) => CtlOutcome {
                    reply: CtlReply::Bytes(ctl_error_bytes(msg)),
                    events,
                    ops,
                },
            }
        },
        CtlRoute::LabelPut => {
            let jv = match crate::json::json_decode(payload) {
                Ok(jv) => jv,
                Err(msg) => {
                    return CtlOutcome {
                        reply: CtlReply::Bytes(ctl_error_bytes(msg)),
                        events: Vec::new(),
                        ops: Vec::new(),
                    };
                },
            };
            let (res, events) = state.handle_label_put(&jv);
            match res {
                Ok(_) => CtlOutcome {
                    reply: CtlReply::Bytes(ctl_success_bytes(Some(ack_jval()))),
                    events,
                    ops: Vec::new(),
                },
                Err(msg) => CtlOutcome {
                    reply: CtlReply::Bytes(ctl_error_bytes(msg)),
                    events,
                    ops: Vec::new(),
                },
            }
        },
        CtlRoute::LabelDel => {
            let jv = match crate::json::json_decode(payload) {
                Ok(jv) => jv,
                Err(msg) => {
                    return CtlOutcome {
                        reply: CtlReply::Bytes(ctl_error_bytes(msg)),
                        events: Vec::new(),
                        ops: Vec::new(),
                    };
                },
            };
            let (res, events) = state.handle_label_del(&jv);
            match res {
                Ok(_) => CtlOutcome {
                    reply: CtlReply::Bytes(ctl_success_bytes(Some(ack_jval()))),
                    events,
                    ops: Vec::new(),
                },
                Err(msg) => CtlOutcome {
                    reply: CtlReply::Bytes(ctl_error_bytes(msg)),
                    events,
                    ops: Vec::new(),
                },
            }
        },
        CtlRoute::RegistryPut => {
            let jv = match crate::json::json_decode(payload) {
                Ok(jv) => jv,
                Err(msg) => {
                    return CtlOutcome {
                        reply: CtlReply::Bytes(ctl_error_bytes(msg)),
                        events: Vec::new(),
                        ops: Vec::new(),
                    };
                },
            };
            match state.handle_registries_put(&jv) {
                Ok(_) => CtlOutcome {
                    reply: CtlReply::Bytes(ctl_success_bytes(Some(ack_jval()))),
                    events: Vec::new(),
                    ops: Vec::new(),
                },
                Err(msg) => CtlOutcome {
                    reply: CtlReply::Bytes(ctl_error_bytes(msg)),
                    events: Vec::new(),
                    ops: Vec::new(),
                },
            }
        },
        CtlRoute::ConfigPut => {
            let (res, events, ops) = state.handle_config_put(&tail[2], payload);
            match res {
                Ok(_) => CtlOutcome {
                    reply: CtlReply::Bytes(ctl_success_bytes(Some(ack_jval()))),
                    events,
                    ops,
                },
                Err(msg) => CtlOutcome {
                    reply: CtlReply::Bytes(ctl_error_bytes(msg)),
                    events,
                    ops,
                },
            }
        },
        CtlRoute::ConfigDel => {
            let (res, events, ops) = state.handle_config_delete(&tail[2]);
            match res {
                Ok(_) => CtlOutcome {
                    reply: CtlReply::Bytes(ctl_success_bytes(Some(ack_jval()))),
                    events,
                    ops,
                },
                Err(msg) => CtlOutcome {
                    reply: CtlReply::Bytes(ctl_error_bytes(msg)),
                    events,
                    ops,
                },
            }
        },
    }
}

} // verus!
