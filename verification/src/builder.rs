//! The composition root: building a host from its parts, with working
//! defaults for every part that is not supplied.
//!
//! A builder is infallible up to `build`. A missing store defaults to an
//! in-memory store, a missing policy manager to permit-all, and a missing
//! event publisher to one that drops events. The transport-backed builder
//! derives its bucket names here and merges registry credentials the same
//! way, so only the bus calls live outside.

use vstd::prelude::*;

use crate::host::HostState;
use crate::json::jstr;
use crate::kvlist::{kv_insert, kvl_map, kvl_unique};
use crate::policy::DefaultPolicyManager;
use crate::event::DefaultEventPublisher;
use crate::store::MemStore;
use crate::types::RegistryCredentials;

verus! {

/// The additive set of experimental features a host can run with; anything
/// else is rejected by name.
#[derive(PartialEq, Eq, Structural, Clone, Copy, Debug)]
pub struct Features {
    pub builtin_http_server: bool,
    pub builtin_messaging: bool,
    pub messaging_v3: bool,
}

impl Features {
    /// No features enabled.
    pub fn new() -> (r: Features)
        ensures
            !r.builtin_http_server,
            !r.builtin_messaging,
            !r.messaging_v3,
    {
        Features { builtin_http_server: false, builtin_messaging: false, messaging_v3: false }
    }

    /// Enables the built-in HTTP server.
    pub fn enable_builtin_http_server(self) -> (r: Features)
        ensures
            r == (Features { builtin_http_server: true, ..self }),
    {
        Features { builtin_http_server: true, ..self }
    }

    /// Enables the built-in messaging provider.
    pub fn enable_builtin_messaging_nats(self) -> (r: Features)
        ensures
            r == (Features { builtin_messaging: true, ..self }),
    {
        Features { builtin_messaging: true, ..self }
    }

    /// Enables the third revision of the messaging interface.
    pub fn enable_wasmcloud_messaging_v3(self) -> (r: Features)
        ensures
            r == (Features { messaging_v3: true, ..self }),
    {
        Features { messaging_v3: true, ..self }
    }

    /// Builds the feature set from flag names; an unknown name is rejected,
    /// naming it.
    pub fn from_flag_names(names: &Vec<String>) -> (r: Result<Features, String>)
        ensures
            ({
                let known = |n: Seq<char>|
                    n == "builtin_http_server"@ || n == "builtin_messaging"@ || n
                        == "messaging_v3"@;
                match r {
                    Ok(f) => {
                        &&& forall|i: int|
                            0 <= i < names.deep_view().len() ==> known(
                                #[trigger] names.deep_view()[i],
                            )
                        &&& f.builtin_http_server == exists|i: int|
                            0 <= i < names.deep_view().len() && #[trigger] names.deep_view()[i]
                                == "builtin_http_server"@
                        &&& f.builtin_messaging == exists|i: int|
                            0 <= i < names.deep_view().len() && #[trigger] names.deep_view()[i]
                                == "builtin_messaging"@
                        &&& f.messaging_v3 == exists|i: int|
                            0 <= i < names.deep_view().len() && #[trigger] names.deep_view()[i]
                                == "messaging_v3"@
                    },
                    Err(_) => exists|i: int|
                        0 <= i < names.deep_view().len() && !known(
                            #[trigger] names.deep_view()[i],
                        ),
                }
            }),
    {
        proof {
            reveal_strlit("builtin_http_server");
            reveal_strlit("builtin_messaging");
            reveal_strlit("messaging_v3");
        }
        let mut f = Features::new();
        let mut i: usize = 0;
        while i < names.len()
            invariant
                i <= names.len(),
                names.deep_view().len() == names.len(),
                forall|j: int|
                    0 <= j < i ==> (#[trigger] names.deep_view()[j] == "builtin_http_server"@
                        || names.deep_view()[j] == "builtin_messaging"@ || names.deep_view()[j]
                        == "messaging_v3"@),
                f.builtin_http_server == exists|j: int|
                    0 <= j < i && #[trigger] names.deep_view()[j] == "builtin_http_server"@,
                f.builtin_messaging == exists|j: int|
                    0 <= j < i && #[trigger] names.deep_view()[j] == "builtin_messaging"@,
                f.messaging_v3 == exists|j: int|
                    0 <= j < i && #[trigger] names.deep_view()[j] == "messaging_v3"@,
            decreases names.len() - i,
        {
            proof {
                reveal_strlit("builtin_http_server");
                reveal_strlit("builtin_messaging");
                reveal_strlit("messaging_v3");
                assert(names.deep_view()[i as int] == names@[i as int]@);
            }
            if names[i] == jstr("builtin_http_server") {
                f = f.enable_builtin_http_server();
            } else if names[i] == jstr("builtin_messaging") {
                f = f.enable_builtin_messaging_nats();
            } else if names[i] == jstr("messaging_v3") {
                f = f.enable_wasmcloud_messaging_v3();
            } else {
                return Err(jstr("unknown feature flag: ").concat(names[i].as_str()));
            }
            i = i + 1;
        }
        Ok(f)
    }
}

/// A built host: its state, the stores backing it, and the default
/// collaborators for everything not supplied.
pub struct Host {
    pub state: HostState,
    pub config_store: MemStore,
    pub data_store: MemStore,
    pub policy: DefaultPolicyManager,
    pub events: DefaultEventPublisher,
    pub features: Features,
}

/// Collects a host's parts; every part has a working default.
pub struct HostBuilder {
    pub host_id: String,
    pub lattice: String,
    pub friendly_name: String,
    pub version: String,
    pub labels: Vec<(String, String)>,
    pub config_store: Option<MemStore>,
    pub data_store: Option<MemStore>,
    pub registry_config: Option<Vec<(String, RegistryCredentials)>>,
    pub experimental_features: Features,
}

impl HostBuilder {
    /// A builder over the host's identity, with every collaborator left to
    /// its default.
    pub fn new(
        host_id: String,
        lattice: String,
        friendly_name: String,
        version: String,
        labels: Vec<(String, String)>,
    ) -> (r: HostBuilder)
        requires
            kvl_unique(labels.deep_view()),
        ensures
            r.host_id == host_id,
            r.lattice == lattice,
            r.friendly_name == friendly_name,
            r.version == version,
            r.labels == labels,
            kvl_unique(r.labels.deep_view()),
            r.config_store is None,
            r.data_store is None,
            r.registry_config is None,
            !r.experimental_features.builtin_http_server,
            !r.experimental_features.builtin_messaging,
            !r.experimental_features.messaging_v3,
    {
        HostBuilder {
            host_id,
            lattice,
            friendly_name,
            version,
            labels,
            config_store: None,
            data_store: None,
            registry_config: None,
            experimental_features: Features::new(),
        }
    }

    /// Supplies a config store.
    pub fn with_config_store(self, store: Option<MemStore>) -> (r: HostBuilder)
        ensures
            r == (HostBuilder { config_store: store, ..self }),
    {
        HostBuilder { config_store: store, ..self }
    }

    /// Supplies a data store.
    pub fn with_data_store(self, store: Option<MemStore>) -> (r: HostBuilder)
        ensures
            r == (HostBuilder { data_store: store, ..self }),
    {
        HostBuilder { data_store: store, ..self }
    }

    /// Supplies merged registry credentials.
    pub fn with_registry_config(self, registry_config: Vec<(String, RegistryCredentials)>) -> (r:
        HostBuilder)
        ensures
            r == (HostBuilder { registry_config: Some(registry_config), ..self }),
    {
        HostBuilder { registry_config: Some(registry_config), ..self }
    }

    /// Supplies the feature set.
    pub fn with_experimental_features(self, features: Features) -> (r: HostBuilder)
        ensures
            r == (HostBuilder { experimental_features: features, ..self }),
    {
        HostBuilder { experimental_features: features, ..self }
    }

    /// Builds the host. A missing store defaults to an empty in-memory store;
    /// a missing registry map to none at all; the policy manager permits
    /// everything and the event publisher drops everything until a transport
    /// replaces them.
    pub fn build(self) -> (r: Host)
        requires
            kvl_unique(self.labels.deep_view()),
            self.registry_config is Some ==> kvl_unique(self.registry_config->0.deep_view()),
        ensures
            r.state.wf(),
            r.state.host_id == self.host_id,
            r.state.lattice == self.lattice,
            r.state.friendly_name == self.friendly_name,
            r.state.version == self.version,
            r.state.labels == self.labels,
            r.state.components.deep_view().len() == 0,
            r.state.providers.deep_view().len() == 0,
            r.state.links.deep_view().len() == 0,
            r.state.stop_deadline is None,
            (match self.registry_config {
                Some(m) => r.state.registry_config == m,
                None => r.state.registry_config.deep_view().len() == 0,
            }),
            (match self.config_store {
                Some(s) => r.config_store == s,
                None => r.config_store.wf() && r.config_store.map() == Map::<
                    Seq<char>,
                    Seq<u8>,
                >::empty(),
            }),
            (match self.data_store {
                Some(s) => r.data_store == s,
                None => r.data_store.wf() && r.data_store.map() == Map::<
                    Seq<char>,
                    Seq<u8>,
                >::empty(),
            }),
            r.features == self.experimental_features,
    {
        let mut state = HostState::new(
            self.host_id,
            self.lattice,
            self.friendly_name,
            self.version,
            self.labels,
        );
        match self.registry_config {
            Some(m) => {
                state.registry_config = m;
            },
            None => {},
        }
        let config_store = match self.config_store {
            Some(s) => s,
            None => MemStore::new(),
        };
        let data_store = match self.data_store {
            Some(s) => s,
            None => MemStore::new(),
        };
        Host {
            state,
            config_store,
            data_store,
            policy: DefaultPolicyManager::new(),
            events: DefaultEventPublisher::new(),
            features: self.experimental_features,
        }
    }
}

/// The name of the lattice data bucket for a lattice.
pub fn lattice_data_bucket(lattice: &String) -> (r: String)
    ensures
        r@ == "LATTICEDATA_"@ + lattice@,
{
    jstr("LATTICEDATA_").concat(lattice.as_str())
}

/// The name of the config bucket for a lattice.
pub fn config_data_bucket(lattice: &String) -> (r: String)
    ensures
        r@ == "CONFIGDATA_"@ + lattice@,
{
    jstr("CONFIGDATA_").concat(lattice.as_str())
}

/// Checks the secrets topic prefix a transport was handed: it must not be
/// empty.
pub fn validate_secrets_topic_prefix(prefix: &String) -> (r: Result<(), String>)
    ensures
        r is Ok <==> prefix@.len() > 0,
{
    proof {
        reveal_strlit("secrets topic prefix must be non-empty");
    }
    if prefix.as_str().is_empty() {
        Err(jstr("secrets topic prefix must be non-empty"))
    } else {
        Ok(())
    }
}

/// Merges locally-provided registry credentials over the supplemental ones:
/// the local entry for a registry wins.
pub fn merge_registry_config(
    base: &mut Vec<(String, RegistryCredentials)>,
    local: Vec<(String, RegistryCredentials)>,
)
    requires
        kvl_unique(old(base).deep_view()),
        kvl_unique(local.deep_view()),
    ensures
        kvl_unique(final(base).deep_view()),
        kvl_map(final(base).deep_view()) == kvl_map(old(base).deep_view()).union_prefer_right(
            kvl_map(local.deep_view()),
        ),
{
    let ghost lx = local.deep_view();
    let mut i: usize = 0;
    let mut rest = local;
    proof {
        assert(lx.take(0) =~= Seq::<(Seq<char>, crate::types::RegistryCredentialsX)>::empty());
        assert(kvl_map(base.deep_view()).union_prefer_right(
            kvl_map(lx.take(0)),
        ) =~= kvl_map(base.deep_view()));
    }
    while i < rest.len()
        invariant
            i <= rest.len(),
            rest.deep_view() == lx,
            lx.len() == rest.len(),
            kvl_unique(lx),
            kvl_unique(base.deep_view()),
            kvl_map(base.deep_view()) == kvl_map(old(base).deep_view()).union_prefer_right(
                kvl_map(lx.take(i as int)),
            ),
        decreases rest.len() - i,
    {
        proof {
            assert(lx.take(i as int + 1).drop_last() =~= lx.take(i as int));
            assert(lx.take(i as int + 1).last() == lx[i as int]);
            assert(lx[i as int] == (rest@[i as int].0@, rest@[i as int].1.deep_view()));
        }
        let ghost before = kvl_map(base.deep_view());
        let entry = &rest[i];
        kv_insert(base, entry.0.clone(), clone_creds(&entry.1));
        proof {
            assert(kvl_map(lx.take(i as int + 1)) == kvl_map(lx.take(i as int)).insert(
                lx[i as int].0,
                lx[i as int].1,
            ));
            assert(kvl_map(old(base).deep_view()).union_prefer_right(
                kvl_map(lx.take(i as int + 1)),
            ) =~= before.insert(lx[i as int].0, lx[i as int].1));
        }
        i = i + 1;
    }
    proof {
        assert(lx.take(lx.len() as int) =~= lx);
    }
}

/// An owned copy of registry credentials.
fn clone_creds(c: &RegistryCredentials) -> (r: RegistryCredentials)
    ensures
        r.deep_view() == c.deep_view(),
{
    RegistryCredentials {
        username: match &c.username {
            Some(s) => Some(s.clone()),
            None => None,
        },
        password: match &c.password {
            Some(s) => Some(s.clone()),
            None => None,
        },
        allow_latest: c.allow_latest,
        allow_insecure: c.allow_insecure,
    }
}

} // verus!
