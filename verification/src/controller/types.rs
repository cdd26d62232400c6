//! The data model of the control plane.

use vstd::prelude::*;
use vstd::std_specs::convert::FromSpecImpl;
use crate::table::Table;
use crate::text::clone_strings;

verus! {

/// The part a controller instance plays in a redundant deployment.
#[derive(Debug, Clone, Copy, PartialEq, Eq, Structural)]
pub enum Role {
    /// The one instance that may change the global state.
    Primary,
    /// A standby that may take over.
    Secondary,
    /// An instance that never competes for leadership.
    Observer,
}

/// The health class of a point of presence.
#[derive(Debug, Clone, Copy, PartialEq, Eq, Structural)]
pub enum HealthStatus {
    Healthy,
    Degraded,
    Unhealthy,
    Unknown,
}

impl HealthStatus {
    /// Whether a PoP of this class still takes traffic.
    pub open spec fn spec_is_healthy(&self) -> bool {
        *self == HealthStatus::Healthy || *self == HealthStatus::Degraded
    }

    /// Whether a PoP of this class still takes traffic: `Healthy` and
    /// `Degraded` do, `Unhealthy` and `Unknown` do not.
    #[verifier::when_used_as_spec(spec_is_healthy)]
    pub fn is_healthy(&self) -> (b: bool)
        ensures
            b == self.spec_is_healthy(),
    {
        match self {
            HealthStatus::Healthy => true,
            HealthStatus::Degraded => true,
            _ => false,
        }
    }
}

/// What a policy governs.
#[derive(Debug, Clone, Copy, PartialEq, Eq, Structural)]
pub enum PolicyType {
    Firewall,
    Routing,
    QoS,
    Security,
    Compliance,
    Custom,
}

/// The name of a region. A region is a key, not an owner: its name does
/// not own the controller that serves it.
#[derive(Debug, Clone, PartialEq, Eq, Hash)]
pub struct Region(pub String);

impl<'a> From<&'a str> for Region {
    fn from(s: &'a str) -> (r: Region)
        ensures
            r.0@ == s@,
    {
        Region(s.to_owned())
    }
}

impl<'a> FromSpecImpl<&'a str> for Region {
    open spec fn obeys_from_spec() -> bool {
        false
    }

    open spec fn from_spec(s: &'a str) -> Region {
        arbitrary()
    }
}

/// A versioned policy. For one `id` the version grows by exactly one with
/// each distribution, starting at one; a stored policy is replaced whole and
/// never changed in place.
#[derive(Debug)]
pub struct Policy {
    pub id: String,
    pub name: String,
    pub version: u64,
    pub policy_type: PolicyType,
    /// The rules, in a form this crate does not look into.
    pub rules: Vec<u8>,
    pub tenant_id: String,
    pub target_pops: Vec<String>,
    pub created_at: String,
    pub updated_at: String,
}

/// What a [`Policy`] holds, as mathematical values.
pub struct PolicyView {
    pub id: Seq<char>,
    pub name: Seq<char>,
    pub version: u64,
    pub policy_type: PolicyType,
    pub rules: Seq<u8>,
    pub tenant_id: Seq<char>,
    pub target_pops: Seq<Seq<char>>,
    pub created_at: Seq<char>,
    pub updated_at: Seq<char>,
}

impl View for Policy {
    type V = PolicyView;

    open spec fn view(&self) -> PolicyView {
        PolicyView {
            id: self.id@,
            name: self.name@,
            version: self.version,
            policy_type: self.policy_type,
            rules: self.rules@,
            tenant_id: self.tenant_id@,
            target_pops: self.target_pops.deep_view(),
            created_at: self.created_at@,
            updated_at: self.updated_at@,
        }
    }
}

/// The version stored for `id`; zero where no policy is stored under it.
pub open spec fn stored_version(policies: Map<Seq<char>, PolicyView>, id: Seq<char>) -> nat {
    if policies.contains_key(id) {
        policies[id].version as nat
    } else {
        0
    }
}

impl Clone for Policy {
    fn clone(&self) -> (r: Policy)
        ensures
            r@ == self@,
    {
        let rules = self.rules.clone();
        assert(rules@ =~= self.rules@);
        Policy {
            id: self.id.clone(),
            name: self.name.clone(),
            version: self.version,
            policy_type: self.policy_type,
            rules,
            tenant_id: self.tenant_id.clone(),
            target_pops: clone_strings(&self.target_pops),
            created_at: self.created_at.clone(),
            updated_at: self.updated_at.clone(),
        }
    }
}

/// A gauge reading, kept as the bit pattern of a double-precision number.
/// The control plane stores and hands on gauges; it never computes with them.
#[derive(Debug, Clone, Copy, PartialEq, Eq, Structural)]
pub struct Gauge {
    pub bits: u64,
}

impl Gauge {
    /// The gauge with the given bit pattern.
    pub fn from_bits(bits: u64) -> (g: Gauge)
        ensures
            g.bits == bits,
    {
        Gauge { bits }
    }

    /// The bit pattern of the reading.
    pub fn to_bits(&self) -> (bits: u64)
        ensures
            bits == self.bits,
    {
        self.bits
    }
}

/// What the controller knows of one point of presence. Records are created
/// by registration and changed only by heartbeats.
#[derive(Debug)]
pub struct PopInfo {
    pub id: String,
    pub location: String,
    pub region: String,
    pub health: HealthStatus,
    pub active_connections: u64,
    pub cpu_usage: Gauge,
    pub memory_usage: Gauge,
    pub bandwidth_mbps: Gauge,
    pub last_heartbeat: String,
}

/// The latency, in milliseconds, that every PoP is taken to have to every
/// client location until a geographic model replaces it.
pub const NOMINAL_LATENCY_MS: u64 = 10;

impl PopInfo {
    /// The latency from this PoP to a client location, in milliseconds.
    pub open spec fn spec_latency_to(&self, client_location: Seq<char>) -> u64 {
        NOMINAL_LATENCY_MS
    }

    /// The latency from this PoP to a client location, in milliseconds.
    pub fn latency_to(&self, client_location: &str) -> (ms: u64)
        ensures
            ms == self.spec_latency_to(client_location@),
    {
        NOMINAL_LATENCY_MS
    }
}

impl Clone for PopInfo {
    fn clone(&self) -> (r: PopInfo)
        ensures
            r == *self,
    {
        PopInfo {
            id: self.id.clone(),
            location: self.location.clone(),
            region: self.region.clone(),
            health: self.health,
            active_connections: self.active_connections,
            cpu_usage: self.cpu_usage,
            memory_usage: self.memory_usage,
            bandwidth_mbps: self.bandwidth_mbps,
            last_heartbeat: self.last_heartbeat.clone(),
        }
    }
}

/// The state of a tunnel.
#[derive(Debug, Clone, Copy, PartialEq, Eq, Structural)]
pub enum TunnelStatus {
    Active,
    Inactive,
    Degraded,
    Failed,
}

/// A tenant's tunnel and the PoPs it ends at.
#[derive(Debug)]
pub struct Tunnel {
    pub id: String,
    pub tenant_id: String,
    pub name: String,
    /// The ids of the PoPs that carry the tunnel.
    pub endpoints: Vec<String>,
    pub client_location: String,
    pub status: TunnelStatus,
    pub bandwidth_limit_mbps: Option<u64>,
}

impl Tunnel {
    /// The endpoint ids as sequences of characters.
    pub open spec fn endpoint_ids(&self) -> Seq<Seq<char>> {
        self.endpoints.deep_view()
    }

    /// Whether the tunnel ends at the PoP `pop_id`.
    pub open spec fn ends_at(&self, pop_id: Seq<char>) -> bool {
        self.endpoint_ids().contains(pop_id)
    }
}

impl Clone for Tunnel {
    fn clone(&self) -> (r: Tunnel)
        ensures
            r.id == self.id,
            r.tenant_id == self.tenant_id,
            r.name == self.name,
            r.endpoint_ids() == self.endpoint_ids(),
            r.client_location == self.client_location,
            r.status == self.status,
            r.bandwidth_limit_mbps == self.bandwidth_limit_mbps,
    {
        Tunnel {
            id: self.id.clone(),
            tenant_id: self.tenant_id.clone(),
            name: self.name.clone(),
            endpoints: clone_strings(&self.endpoints),
            client_location: self.client_location.clone(),
            status: self.status,
            bandwidth_limit_mbps: self.bandwidth_limit_mbps,
        }
    }
}

/// One route entry.
#[derive(Debug)]
pub struct Route {
    pub id: String,
    pub prefix: String,
    pub next_hop: String,
    pub metric: u32,
    pub pop_id: String,
}

impl Clone for Route {
    fn clone(&self) -> (r: Route)
        ensures
            r == *self,
    {
        Route {
            id: self.id.clone(),
            prefix: self.prefix.clone(),
            next_hop: self.next_hop.clone(),
            metric: self.metric,
            pop_id: self.pop_id.clone(),
        }
    }
}

/// Everything the control plane tracks, each kind keyed by id.
#[derive(Debug)]
pub struct GlobalState {
    pub policies: Table<Policy>,
    pub pops: Table<PopInfo>,
    pub tunnels: Table<Tunnel>,
    pub routes: Table<Route>,
}

impl Default for GlobalState {
    fn default() -> (s: GlobalState)
        ensures
            s.policies@ == Map::<Seq<char>, Policy>::empty(),
            s.pops@ == Map::<Seq<char>, PopInfo>::empty(),
            s.tunnels@ == Map::<Seq<char>, Tunnel>::empty(),
            s.routes@ == Map::<Seq<char>, Route>::empty(),
            s.policies.keys().len() == 0,
            s.pops.keys().len() == 0,
            s.tunnels.keys().len() == 0,
            s.routes.keys().len() == 0,
    {
        GlobalState {
            policies: Table::new(),
            pops: Table::new(),
            tunnels: Table::new(),
            routes: Table::new(),
        }
    }
}

/// How policies are kept and sent out.
#[derive(Debug, Clone, Copy)]
pub struct PolicyConfig {
    pub version_retention: u32,
    pub distribution_timeout_ms: u64,
}

impl Default for PolicyConfig {
    fn default() -> (c: PolicyConfig)
        ensures
            c.version_retention == 0,
            c.distribution_timeout_ms == 0,
    {
        PolicyConfig { version_retention: 0, distribution_timeout_ms: 0 }
    }
}

/// Limits on routing.
#[derive(Debug, Clone, Copy)]
pub struct RoutingConfig {
    pub convergence_timeout_ms: u64,
    pub max_routes_per_pop: u32,
}

impl Default for RoutingConfig {
    fn default() -> (c: RoutingConfig)
        ensures
            c.convergence_timeout_ms == 0,
            c.max_routes_per_pop == 0,
    {
        RoutingConfig { convergence_timeout_ms: 0, max_routes_per_pop: 0 }
    }
}

/// The thresholds of the health classifier.
#[derive(Debug, Clone, Copy)]
pub struct HealthConfig {
    pub check_interval_ms: u64,
    /// Consecutive failures after which a PoP counts as unhealthy.
    pub unhealthy_threshold: u32,
    /// Consecutive successes after which a PoP counts as healthy.
    pub healthy_threshold: u32,
}

impl Default for HealthConfig {
    fn default() -> (c: HealthConfig)
        ensures
            c.check_interval_ms == 5000,
            c.unhealthy_threshold == 3,
            c.healthy_threshold == 2,
    {
        HealthConfig { check_interval_ms: 5000, unhealthy_threshold: 3, healthy_threshold: 2 }
    }
}

/// What a controller instance is started with.
#[derive(Debug)]
pub struct ControllerConfig {
    pub node_id: String,
    pub bind_address: String,
    pub grpc_port: u16,
    pub regions: Vec<Region>,
    pub policy: PolicyConfig,
    pub routing: RoutingConfig,
    pub health: HealthConfig,
}

impl ControllerConfig {
    /// The names of the configured regions, in order.
    pub open spec fn region_names(&self) -> Seq<Seq<char>> {
        Seq::new(self.regions@.len(), |i: int| self.regions@[i].0@)
    }
}

impl Default for ControllerConfig {
    fn default() -> (c: ControllerConfig)
        ensures
            c.node_id@ == "controller-1"@,
            c.bind_address@ == "0.0.0.0"@,
            c.grpc_port == 50051,
            c.region_names() == seq!["us-east"@, "us-west"@, "eu-west"@, "ap-south"@],
            c.policy.version_retention == 0,
            c.policy.distribution_timeout_ms == 0,
            c.routing.convergence_timeout_ms == 0,
            c.routing.max_routes_per_pop == 0,
            c.health.check_interval_ms == 5000,
            c.health.unhealthy_threshold == 3,
            c.health.healthy_threshold == 2,
    {
        let mut regions: Vec<Region> = Vec::new();
        regions.push(Region::from("us-east"));
        regions.push(Region::from("us-west"));
        regions.push(Region::from("eu-west"));
        regions.push(Region::from("ap-south"));
        let c = ControllerConfig {
            node_id: "controller-1".to_owned(),
            bind_address: "0.0.0.0".to_owned(),
            grpc_port: 50051,
            regions,
            policy: PolicyConfig::default(),
            routing: RoutingConfig::default(),
            health: HealthConfig::default(),
        };
        assert(c.region_names() =~= seq!["us-east"@, "us-west"@, "eu-west"@, "ap-south"@]);
        c
    }
}

/// What a PoP reports in a heartbeat.
#[derive(Debug, Clone, Copy)]
pub struct PopStatus {
    pub health: HealthStatus,
    pub cpu_usage: Gauge,
    pub memory_usage: Gauge,
    pub active_connections: u64,
}

/// The ways an operation of the control plane can fail. Every failure is
/// returned as a value of this type.
#[derive(Debug, Clone)]
pub enum ControllerError {
    /// No PoP is fit to take a tunnel. Not fatal: try again after the next
    /// round of health checks.
    NoHealthyPops,
    /// A region did not take a policy.
    PolicyDistributionFailed(String),
    /// An operation that needs a lease found none: run the election again.
    NoLease,
    /// A collaborator outside the control plane could not be reached.
    ConnectionFailed(String),
}

impl ControllerError {
    /// The message of the error.
    pub open spec fn message(&self) -> Seq<char> {
        match self {
            ControllerError::NoHealthyPops => "No healthy PoPs available"@,
            ControllerError::PolicyDistributionFailed(e) => "Policy distribution failed: "@ + e@,
            ControllerError::NoLease => "No active lease"@,
            ControllerError::ConnectionFailed(e) => "Connection failed: "@ + e@,
        }
    }

    /// The message of the error, as text.
    pub fn to_string(&self) -> (s: String)
        ensures
            s@ == self.message(),
    {
        match self {
            ControllerError::NoHealthyPops => "No healthy PoPs available".to_owned(),
            ControllerError::PolicyDistributionFailed(e) => {
                "Policy distribution failed: ".to_owned().concat(e.as_str())
            },
            ControllerError::NoLease => "No active lease".to_owned(),
            ControllerError::ConnectionFailed(e) => {
                "Connection failed: ".to_owned().concat(e.as_str())
            },
        }
    }
}

} // verus!
