//! The host's data model: component specs, provider instances, links, claims,
//! registry credentials, lifecycle events and store operations, each with its
//! mathematical view.

use vstd::prelude::*;

verus! {

/// Desired state of a component, as stored under `COMPONENT_<id>` in the
/// lattice data bucket.
pub struct ComponentSpec {
    pub image_ref: String,
    pub max_instances: u32,
    pub annotations: Vec<(String, String)>,
}

/// View of [`ComponentSpec`].
pub struct ComponentSpecX {
    pub image_ref: Seq<char>,
    pub max_instances: u32,
    pub annotations: Seq<(Seq<char>, Seq<char>)>,
}

impl DeepView for ComponentSpec {
    type V = ComponentSpecX;

    open spec fn deep_view(&self) -> ComponentSpecX {
        ComponentSpecX {
            image_ref: self.image_ref@,
            max_instances: self.max_instances,
            annotations: self.annotations.deep_view(),
        }
    }
}

/// A capability provider running on this host. Providers are started by
/// explicit request, not through the data bucket.
pub struct ProviderInstance {
    pub image_ref: String,
    pub annotations: Vec<(String, String)>,
}

/// View of [`ProviderInstance`].
pub struct ProviderInstanceX {
    pub image_ref: Seq<char>,
    pub annotations: Seq<(Seq<char>, Seq<char>)>,
}

impl DeepView for ProviderInstance {
    type V = ProviderInstanceX;

    open spec fn deep_view(&self) -> ProviderInstanceX {
        ProviderInstanceX {
            image_ref: self.image_ref@,
            annotations: self.annotations.deep_view(),
        }
    }
}

/// A directed routing edge from a source component to a target, qualified by a
/// WIT namespace and package. The tuple `(source_id, name, wit_namespace,
/// wit_package)` identifies a link; putting a link with an existing key
/// replaces it.
pub struct Link {
    pub source_id: String,
    pub target: String,
    pub name: String,
    pub wit_namespace: String,
    pub wit_package: String,
    pub interfaces: Vec<String>,
    pub source_config: Vec<String>,
    pub target_config: Vec<String>,
}

/// View of [`Link`].
pub struct LinkX {
    pub source_id: Seq<char>,
    pub target: Seq<char>,
    pub name: Seq<char>,
    pub wit_namespace: Seq<char>,
    pub wit_package: Seq<char>,
    pub interfaces: Seq<Seq<char>>,
    pub source_config: Seq<Seq<char>>,
    pub target_config: Seq<Seq<char>>,
}

impl DeepView for Link {
    type V = LinkX;

    open spec fn deep_view(&self) -> LinkX {
        LinkX {
            source_id: self.source_id@,
            target: self.target@,
            name: self.name@,
            wit_namespace: self.wit_namespace@,
            wit_package: self.wit_package@,
            interfaces: self.interfaces.deep_view(),
            source_config: self.source_config.deep_view(),
            target_config: self.target_config.deep_view(),
        }
    }
}

/// The identifying part of a [`Link`].
pub struct LinkKey {
    pub source_id: String,
    pub name: String,
    pub wit_namespace: String,
    pub wit_package: String,
}

/// View of [`LinkKey`].
pub struct LinkKeyX {
    pub source_id: Seq<char>,
    pub name: Seq<char>,
    pub wit_namespace: Seq<char>,
    pub wit_package: Seq<char>,
}

impl DeepView for LinkKey {
    type V = LinkKeyX;

    open spec fn deep_view(&self) -> LinkKeyX {
        LinkKeyX {
            source_id: self.source_id@,
            name: self.name@,
            wit_namespace: self.wit_namespace@,
            wit_package: self.wit_package@,
        }
    }
}

/// The key of a link.
pub open spec fn link_key_of(l: LinkX) -> LinkKeyX {
    LinkKeyX {
        source_id: l.source_id,
        name: l.name,
        wit_namespace: l.wit_namespace,
        wit_package: l.wit_package,
    }
}

/// Whether a link carries the given key.
pub open spec fn link_matches(l: LinkX, k: LinkKeyX) -> bool {
    link_key_of(l) == k
}

/// Whether the claims describe a component or a provider; the data bucket
/// holds both kinds under `CLAIMS_<pubkey>`.
#[derive(PartialEq, Eq, Structural, Clone, Copy, Debug)]
pub enum ClaimsKind {
    Component,
    Provider,
}

/// Optional metadata embedded in signed claims.
pub struct ClaimsMeta {
    pub name: Option<String>,
    pub version: Option<String>,
    pub revision: Option<u64>,
    pub tags: Option<Vec<String>>,
    pub call_alias: Option<String>,
}

/// View of [`ClaimsMeta`].
pub struct ClaimsMetaX {
    pub name: Option<Seq<char>>,
    pub version: Option<Seq<char>>,
    pub revision: Option<u64>,
    pub tags: Option<Seq<Seq<char>>>,
    pub call_alias: Option<Seq<char>>,
}

impl DeepView for ClaimsMeta {
    type V = ClaimsMetaX;

    open spec fn deep_view(&self) -> ClaimsMetaX {
        ClaimsMetaX {
            name: self.name.deep_view(),
            version: self.version.deep_view(),
            revision: self.revision,
            tags: self.tags.deep_view(),
            call_alias: self.call_alias.deep_view(),
        }
    }
}

/// Signed metadata asserting authorship and limits for a component or a
/// provider. The subject is the public key the claims are stored under.
pub struct Claims {
    pub kind: ClaimsKind,
    pub subject: String,
    pub issuer: String,
    pub not_before: Option<u64>,
    pub expires: Option<u64>,
    pub metadata: Option<ClaimsMeta>,
}

/// View of [`Claims`].
pub struct ClaimsX {
    pub kind: ClaimsKind,
    pub subject: Seq<char>,
    pub issuer: Seq<char>,
    pub not_before: Option<u64>,
    pub expires: Option<u64>,
    pub metadata: Option<ClaimsMetaX>,
}

impl DeepView for Claims {
    type V = ClaimsX;

    open spec fn deep_view(&self) -> ClaimsX {
        ClaimsX {
            kind: self.kind,
            subject: self.subject@,
            issuer: self.issuer@,
            not_before: self.not_before,
            expires: self.expires,
            metadata: match &self.metadata {
                Some(m) => Some(m.deep_view()),
                None => None,
            },
        }
    }
}

/// Per-registry credentials and policy, merged at startup.
pub struct RegistryCredentials {
    pub username: Option<String>,
    pub password: Option<String>,
    pub allow_latest: bool,
    pub allow_insecure: bool,
}

/// View of [`RegistryCredentials`].
pub struct RegistryCredentialsX {
    pub username: Option<Seq<char>>,
    pub password: Option<Seq<char>>,
    pub allow_latest: bool,
    pub allow_insecure: bool,
}

impl DeepView for RegistryCredentials {
    type V = RegistryCredentialsX;

    open spec fn deep_view(&self) -> RegistryCredentialsX {
        RegistryCredentialsX {
            username: self.username.deep_view(),
            password: self.password.deep_view(),
            allow_latest: self.allow_latest,
            allow_insecure: self.allow_insecure,
        }
    }
}

/// A lifecycle event: its name (`component_scaled`, `linkdef_deleted`, ...)
/// and its payload. The publisher wraps it in the event envelope and puts it
/// on the bus.
pub type Event = (String, crate::json::JVal);

/// An operation the caller must apply to a backing store: a write or a delete,
/// against the lattice data bucket or the config bucket.
pub enum StoreOp {
    PutData(String, Vec<u8>),
    DelData(String),
    PutConfig(String, Vec<u8>),
    DelConfig(String),
}

/// View of [`StoreOp`].
pub enum StoreOpX {
    PutData(Seq<char>, Seq<u8>),
    DelData(Seq<char>),
    PutConfig(Seq<char>, Seq<u8>),
    DelConfig(Seq<char>),
}

impl DeepView for StoreOp {
    type V = StoreOpX;

    open spec fn deep_view(&self) -> StoreOpX {
        match self {
            StoreOp::PutData(k, v) => StoreOpX::PutData(k@, v@),
            StoreOp::DelData(k) => StoreOpX::DelData(k@),
            StoreOp::PutConfig(k, v) => StoreOpX::PutConfig(k@, v@),
            StoreOp::DelConfig(k) => StoreOpX::DelConfig(k@),
        }
    }
}

/// Decimal digits of `n`, most significant first.
pub open spec fn dec_chars(n: nat) -> Seq<char>
    decreases n,
{
    if n < 10 {
        seq![digit_char(n)]
    } else {
        dec_chars(n / 10).push(digit_char(n % 10))
    }
}

/// The character for one decimal digit.
pub open spec fn digit_char(d: nat) -> char {
    if d == 0 {
        '0'
    } else if d == 1 {
        '1'
    } else if d == 2 {
        '2'
    } else if d == 3 {
        '3'
    } else if d == 4 {
        '4'
    } else if d == 5 {
        '5'
    } else if d == 6 {
        '6'
    } else if d == 7 {
        '7'
    } else if d == 8 {
        '8'
    } else {
        '9'
    }
}

fn digit_str(d: u64) -> (r: &'static str)
    requires
        d < 10,
    ensures
        r@ =~= seq![digit_char(d as nat)],
{
    proof {
        reveal_strlit("0");
        reveal_strlit("1");
        reveal_strlit("2");
        reveal_strlit("3");
        reveal_strlit("4");
        reveal_strlit("5");
        reveal_strlit("6");
        reveal_strlit("7");
        reveal_strlit("8");
        reveal_strlit("9");
    }
    if d == 0 {
        "0"
    } else if d == 1 {
        "1"
    } else if d == 2 {
        "2"
    } else if d == 3 {
        "3"
    } else if d == 4 {
        "4"
    } else if d == 5 {
        "5"
    } else if d == 6 {
        "6"
    } else if d == 7 {
        "7"
    } else if d == 8 {
        "8"
    } else {
        "9"
    }
}

/// Renders a number in decimal, as event payloads show timestamps.
pub fn dec_str(n: u64) -> (r: String)
    ensures
        r@ == dec_chars(n as nat),
    decreases n,
{
    if n < 10 {
        digit_str(n).to_owned()
    } else {
        let prefix = dec_str(n / 10);
        let r = prefix.concat(digit_str(n % 10));
        proof {
            assert(r@ =~= dec_chars((n / 10) as nat).push(digit_char((n % 10) as nat)));
        }
        r
    }
}

} // verus!
