//! The central controller: the one owner of the global state.

use vstd::prelude::*;
use crate::clock::{is_instant_text, rfc3339, utc_now, Timestamp};
use crate::controller::regional::RegionalController;
use crate::controller::types::{
    stored_version, ControllerConfig, ControllerError, GlobalState, Policy, PolicyView, PopInfo,
    PopStatus, Region, Tunnel, TunnelStatus,
};
use crate::table::Table;
use crate::text::{
    lemma_lex_le_antisymmetric, lemma_lex_le_total, lemma_lex_le_transitive, lex_le, str_le,
    vec_contains_str,
};

verus! {

// ---------------------------------------------------------------------------
// Policy versions
// ---------------------------------------------------------------------------
/// `policy` as it is stored by a distribution at the time `updated_at`:
/// with the version that follows the stored one and the new time stamp.
pub open spec fn versioned(
    policies: Map<Seq<char>, PolicyView>,
    policy: PolicyView,
    updated_at: Seq<char>,
) -> PolicyView {
    PolicyView {
        version: (stored_version(policies, policy.id) + 1) as u64,
        updated_at,
        ..policy
    }
}

/// The stored policies after `policy` was distributed at `updated_at`.
pub open spec fn distributed(
    policies: Map<Seq<char>, PolicyView>,
    policy: PolicyView,
    updated_at: Seq<char>,
) -> Map<Seq<char>, PolicyView> {
    policies.insert(policy.id, versioned(policies, policy, updated_at))
}

/// The stored policies after the policies of `batch` were distributed one
/// after the other, each with its own time stamp.
pub open spec fn distributed_all(
    policies: Map<Seq<char>, PolicyView>,
    batch: Seq<(PolicyView, Seq<char>)>,
) -> Map<Seq<char>, PolicyView>
    decreases batch.len(),
{
    if batch.len() == 0 {
        policies
    } else {
        let last = batch.last();
        distributed(distributed_all(policies, batch.drop_last()), last.0, last.1)
    }
}

/// How many policies of `batch` carry the id `id`.
pub open spec fn distributions_of(batch: Seq<(PolicyView, Seq<char>)>, id: Seq<char>) -> nat
    decreases batch.len(),
{
    if batch.len() == 0 {
        0
    } else {
        distributions_of(batch.drop_last(), id) + if batch.last().0.id == id {
            1nat
        } else {
            0nat
        }
    }
}

/// Version monotonicity: distributing a batch of policies raises the version
/// stored for an id by the number of policies of the batch that carry the
/// id, as long as versions fit their type. From an empty store, `n`
/// distributions of one id leave the version `n`.
pub proof fn lemma_version_counts_distributions(
    policies: Map<Seq<char>, PolicyView>,
    batch: Seq<(PolicyView, Seq<char>)>,
    id: Seq<char>,
)
    requires
        stored_version(policies, id) + distributions_of(batch, id) <= u64::MAX,
    ensures
        stored_version(distributed_all(policies, batch), id) == stored_version(policies, id)
            + distributions_of(batch, id),
        distributions_of(batch, id) > 0 ==> distributed_all(policies, batch).contains_key(id),
    decreases batch.len(),
{
    if batch.len() > 0 {
        lemma_version_counts_distributions(policies, batch.drop_last(), id);
    }
}

// ---------------------------------------------------------------------------
// Nearest healthy PoP
// ---------------------------------------------------------------------------
/// Whether the PoP `p`, known under `p_id`, is at least as good a target for
/// a client at `client` as `q`, known under `q_id`: it has the lower
/// latency or, at equal latency, the id that comes first.
pub open spec fn closer_or_equal(
    p: PopInfo,
    p_id: Seq<char>,
    q: PopInfo,
    q_id: Seq<char>,
    client: Seq<char>,
) -> bool {
    p.spec_latency_to(client) < q.spec_latency_to(client) || (p.spec_latency_to(client)
        == q.spec_latency_to(client) && lex_le(p_id, q_id))
}

/// Whether some PoP of `pops` takes traffic.
pub open spec fn has_healthy(pops: Map<Seq<char>, PopInfo>) -> bool {
    exists|k: Seq<char>| pops.contains_key(k) && (#[trigger] pops[k]).health.is_healthy()
}

/// Whether `id` is the PoP that takes traffic and is nearest to `client`:
/// no PoP that takes traffic has a lower latency, and none of equal latency
/// has an id that comes before `id`.
pub open spec fn is_nearest_healthy(
    pops: Map<Seq<char>, PopInfo>,
    client: Seq<char>,
    id: Seq<char>,
) -> bool {
    &&& pops.contains_key(id)
    &&& pops[id].health.is_healthy()
    &&& forall|k: Seq<char>|
        pops.contains_key(k) && (#[trigger] pops[k]).health.is_healthy() ==> closer_or_equal(
            pops[id],
            id,
            pops[k],
            k,
            client,
        )
}

/// The nearest healthy PoP is unique: rerouting is deterministic whatever
/// the order in which the PoPs were registered.
pub proof fn lemma_nearest_healthy_is_unique(
    pops: Map<Seq<char>, PopInfo>,
    client: Seq<char>,
    a: Seq<char>,
    b: Seq<char>,
)
    requires
        is_nearest_healthy(pops, client, a),
        is_nearest_healthy(pops, client, b),
    ensures
        a == b,
{
    assert(closer_or_equal(pops[a], a, pops[b], b, client));
    assert(closer_or_equal(pops[b], b, pops[a], a, client));
    lemma_lex_le_antisymmetric(a, b);
}

// ---------------------------------------------------------------------------
// Heartbeats and rerouting, as functions on records
// ---------------------------------------------------------------------------
/// The record of a PoP after a heartbeat that reported `status` at the time
/// `at`: health, load and time stamp are replaced, the rest stays.
pub open spec fn heartbeat_applied(pop: PopInfo, status: PopStatus, at: String) -> PopInfo {
    PopInfo {
        health: status.health,
        cpu_usage: status.cpu_usage,
        memory_usage: status.memory_usage,
        active_connections: status.active_connections,
        last_heartbeat: at,
        ..pop
    }
}

/// The PoP records after a heartbeat of `pop_id`: the record of a known PoP
/// is updated, a heartbeat of an unknown PoP changes nothing.
pub open spec fn pops_after_heartbeat(
    pops: Map<Seq<char>, PopInfo>,
    pop_id: Seq<char>,
    status: PopStatus,
    at: String,
) -> Map<Seq<char>, PopInfo> {
    if pops.contains_key(pop_id) {
        pops.insert(pop_id, heartbeat_applied(pops[pop_id], status, at))
    } else {
        pops
    }
}

/// Heartbeat idempotence: a heartbeat applied twice with the same payload
/// and time stamp leaves the records that one application leaves. Nothing
/// is counted, so nothing is counted twice.
pub proof fn lemma_heartbeat_is_idempotent(
    pops: Map<Seq<char>, PopInfo>,
    pop_id: Seq<char>,
    status: PopStatus,
    at: String,
)
    ensures
        pops_after_heartbeat(pops_after_heartbeat(pops, pop_id, status, at), pop_id, status, at)
            == pops_after_heartbeat(pops, pop_id, status, at),
{
    let once = pops_after_heartbeat(pops, pop_id, status, at);
    let twice = pops_after_heartbeat(once, pop_id, status, at);
    assert(twice =~= once);
}

/// Two heartbeats with the same payload at different times leave records
/// that differ in the time stamp alone.
pub proof fn lemma_repeated_heartbeat_moves_only_the_time(
    pop: PopInfo,
    status: PopStatus,
    first: String,
    second: String,
)
    ensures
        heartbeat_applied(heartbeat_applied(pop, status, first), status, second)
            == heartbeat_applied(pop, status, second),
        heartbeat_applied(pop, status, second) == (PopInfo {
            last_heartbeat: second,
            ..heartbeat_applied(pop, status, first)
        }),
{
}

/// Whether `after` is `before` moved to the PoP `target`: active, with
/// `target` as its only endpoint, and otherwise as it was.
pub open spec fn moved(before: Tunnel, after: Tunnel, target: Seq<char>) -> bool {
    &&& after.id == before.id
    &&& after.tenant_id == before.tenant_id
    &&& after.name == before.name
    &&& after.client_location == before.client_location
    &&& after.bandwidth_limit_mbps == before.bandwidth_limit_mbps
    &&& after.status == TunnelStatus::Active
    &&& after.endpoint_ids() == seq![target]
}

/// Whether `after` is `before` rerouted: moved to the healthy PoP nearest
/// to its client.
pub open spec fn rerouted(before: Tunnel, after: Tunnel, pops: Map<Seq<char>, PopInfo>) -> bool {
    &&& after.endpoint_ids().len() == 1
    &&& moved(before, after, after.endpoint_ids()[0])
    &&& is_nearest_healthy(pops, before.client_location@, after.endpoint_ids()[0])
}

/// `tunnel` moved to the PoP `target`.
fn moved_to(tunnel: &Tunnel, target: &str) -> (r: Tunnel)
    ensures
        moved(*tunnel, r, target@),
{
    let mut endpoints: Vec<String> = Vec::new();
    endpoints.push(target.to_owned());
    assert(endpoints.deep_view() =~= seq![target@]);
    Tunnel {
        id: tunnel.id.clone(),
        tenant_id: tunnel.tenant_id.clone(),
        name: tunnel.name.clone(),
        endpoints,
        client_location: tunnel.client_location.clone(),
        status: TunnelStatus::Active,
        bandwidth_limit_mbps: tunnel.bandwidth_limit_mbps,
    }
}

/// What the failure of `pop_id` does to one tunnel: a tunnel that ends at
/// the PoP is rerouted, any other stays as it is.
pub open spec fn reroute_outcome(
    before: Tunnel,
    after: Tunnel,
    pop_id: Seq<char>,
    pops: Map<Seq<char>, PopInfo>,
) -> bool {
    if before.ends_at(pop_id) {
        rerouted(before, after, pops)
    } else {
        after == before
    }
}

/// Whether some tunnel of `tunnels` ends at `pop_id`.
pub open spec fn any_ends_at(tunnels: Seq<Tunnel>, pop_id: Seq<char>) -> bool {
    exists|i: int| 0 <= i < tunnels.len() && (#[trigger] tunnels[i]).ends_at(pop_id)
}

// ---------------------------------------------------------------------------
// Keys and ids
// ---------------------------------------------------------------------------
/// Every PoP is stored under its id.
pub open spec fn pops_keyed(pops: Map<Seq<char>, PopInfo>) -> bool {
    forall|k: Seq<char>| pops.contains_key(k) ==> (#[trigger] pops[k]).id@ == k
}

/// Every tunnel is stored under its id.
pub open spec fn tunnels_keyed(tunnels: Map<Seq<char>, Tunnel>) -> bool {
    forall|k: Seq<char>| tunnels.contains_key(k) ==> (#[trigger] tunnels[k]).id@ == k
}

/// Every policy is stored under its id.
pub open spec fn policies_keyed(policies: Map<Seq<char>, Policy>) -> bool {
    forall|k: Seq<char>| policies.contains_key(k) ==> (#[trigger] policies[k]).id@ == k
}

/// Every regional controller is stored under the name of its region.
pub open spec fn regions_keyed(regions: Map<Seq<char>, RegionalController>) -> bool {
    forall|k: Seq<char>| regions.contains_key(k) ==> (#[trigger] regions[k]).region_name() == k
}

impl GlobalState {
    /// The stored policies, as mathematical values.
    pub open spec fn policy_views(&self) -> Map<Seq<char>, PolicyView> {
        self.policies@.map_values(|p: Policy| p@)
    }
}

/// Whether `after` is `before` with `policy` put in force.
pub open spec fn region_applied(
    before: RegionalController,
    after: RegionalController,
    policy: PolicyView,
) -> bool {
    &&& after.region_name() == before.region_name()
    &&& after.pop_ids() == before.pop_ids()
    &&& after.policies() == before.policies().insert(policy.id, policy)
}

/// No regression: a region that holds no newer version of a policy than the
/// central state holds a newer one than before once the policy has been
/// distributed to it, and the same one as the central state.
pub proof fn lemma_distribution_moves_regions_forward(
    central: Map<Seq<char>, PolicyView>,
    before: RegionalController,
    after: RegionalController,
    policy: PolicyView,
    updated_at: Seq<char>,
)
    requires
        stored_version(central, policy.id) < u64::MAX,
        stored_version(before.policies(), policy.id) <= stored_version(central, policy.id),
        region_applied(before, after, versioned(central, policy, updated_at)),
    ensures
        stored_version(after.policies(), policy.id) > stored_version(before.policies(), policy.id),
        stored_version(after.policies(), policy.id) == stored_version(
            distributed(central, policy, updated_at),
            policy.id,
        ),
{
}

// ---------------------------------------------------------------------------
// The controller
// ---------------------------------------------------------------------------
/// Owns the global state and is the entry point for what administrators
/// and PoPs ask of the control plane. It is built for one writer: whoever
/// shares it between threads has to serialise the calls that change it.
#[derive(Debug)]
pub struct CentralController {
    config: ControllerConfig,
    state: GlobalState,
    regional_controllers: Table<RegionalController>,
}

impl CentralController {
    /// The configuration the controller was made with.
    pub closed spec fn config(&self) -> ControllerConfig {
        self.config
    }

    /// The global state.
    pub closed spec fn state(&self) -> GlobalState {
        self.state
    }

    /// The regional controllers, by region name.
    pub closed spec fn regions(&self) -> Map<Seq<char>, RegionalController> {
        self.regional_controllers@
    }

    /// PoPs, tunnels and policies are stored under their ids, regional
    /// controllers under the names of their regions.
    pub open spec fn wf(&self) -> bool {
        &&& pops_keyed(self.state().pops@)
        &&& tunnels_keyed(self.state().tunnels@)
        &&& policies_keyed(self.state().policies@)
        &&& regions_keyed(self.regions())
    }

    #[verifier::type_invariant]
    pub closed spec fn inv(&self) -> bool {
        &&& pops_keyed(self.state.pops@)
        &&& tunnels_keyed(self.state.tunnels@)
        &&& policies_keyed(self.state.policies@)
        &&& regions_keyed(self.regional_controllers@)
    }

    /// A controller with an empty state and a fresh regional controller for
    /// every region of `config`.
    pub fn new(config: ControllerConfig) -> (c: CentralController)
        ensures
            c.wf(),
            c.config() == config,
            c.state().policies@ == Map::<Seq<char>, Policy>::empty(),
            c.state().pops@ == Map::<Seq<char>, PopInfo>::empty(),
            c.state().tunnels@ == Map::<Seq<char>, Tunnel>::empty(),
            c.state().routes@ == Map::<Seq<char>, crate::controller::types::Route>::empty(),
            forall|k: Seq<char>| #[trigger]
                c.regions().contains_key(k) <==> config.region_names().contains(k),
            forall|k: Seq<char>| #[trigger]
                c.regions().contains_key(k) ==> c.regions()[k].pop_ids() == Seq::<
                    Seq<char>,
                >::empty() && c.regions()[k].policies() == Map::<Seq<char>, PolicyView>::empty(),
    {
        let mut regionals: Table<RegionalController> = Table::new();
        let n: usize = config.regions.len();
        let mut i: usize = 0;
        while i < n
            invariant
                n == config.regions@.len(),
                i <= n,
                regions_keyed(regionals@),
                forall|k: Seq<char>| #[trigger]
                    regionals@.contains_key(k) <==> exists|j: int|
                        0 <= j < i && config.region_names()[j] == k,
                forall|k: Seq<char>| #[trigger]
                    regionals@.contains_key(k) ==> regionals@[k].pop_ids() == Seq::<
                        Seq<char>,
                    >::empty() && regionals@[k].policies() == Map::<
                        Seq<char>,
                        PolicyView,
                    >::empty(),
            decreases n - i,
        {
            let name = config.regions[i].0.clone();
            let controller = RegionalController::new(Region(config.regions[i].0.clone()));
            let ghost before = regionals@;
            regionals.insert(name, controller);
            proof {
                let key = config.region_names()[i as int];
                assert(key == name@);
                assert forall|k: Seq<char>| #[trigger]
                    regionals@.contains_key(k) <==> exists|j: int|
                        0 <= j < i + 1 && config.region_names()[j] == k by {
                    if regionals@.contains_key(k) {
                        if k == key {
                            assert(config.region_names()[i as int] == k);
                        } else {
                            assert(before.contains_key(k));
                            let j = choose|j: int| 0 <= j < i && config.region_names()[j] == k;
                            assert(0 <= j < i + 1 && config.region_names()[j] == k);
                        }
                    }
                    if exists|j: int| 0 <= j < i + 1 && config.region_names()[j] == k {
                        let j = choose|j: int| 0 <= j < i + 1 && config.region_names()[j] == k;
                        if j < i {
                            assert(before.contains_key(k));
                        }
                    }
                }
            }
            i += 1;
        }
        proof {
            assert forall|k: Seq<char>| #[trigger]
                regionals@.contains_key(k) <==> config.region_names().contains(k) by {
                if regionals@.contains_key(k) {
                    let j = choose|j: int| 0 <= j < n && config.region_names()[j] == k;
                    assert(config.region_names()[j] == k);
                }
                if config.region_names().contains(k) {
                    let j = choose|j: int|
                        0 <= j < config.region_names().len() && config.region_names()[j] == k;
                    assert(0 <= j < n && config.region_names()[j] == k);
                }
            }
        }
        CentralController { config, state: GlobalState::default(), regional_controllers: regionals }
    }

    /// The version the next distribution of the policy `id` stores.
    fn next_version(&self, id: &str) -> (v: u64)
        requires
            stored_version(self.state().policy_views(), id@) < u64::MAX,
        ensures
            v == stored_version(self.state().policy_views(), id@) + 1,
    {
        match self.state.policies.get(id) {
            Some(p) => p.version + 1,
            None => 1,
        }
    }

    /// `policy` with the version that follows the stored one (one for a new
    /// id) and the time stamp `updated_at`.
    fn version_policy(&self, policy: Policy, updated_at: String) -> (p: Policy)
        requires
            stored_version(self.state().policy_views(), policy.id@) < u64::MAX,
        ensures
            p@ == versioned(self.state().policy_views(), policy@, updated_at@),
    {
        let version = self.next_version(policy.id.as_str());
        let mut policy = policy;
        policy.version = version;
        policy.updated_at = updated_at;
        policy
    }

    /// Stores `policy` with the version that follows the stored one (one
    /// for a new id) and the time stamp `updated_at`, then puts it in force
    /// in every region. The central state is changed first; a region that
    /// refused would end the call with its error and leave the regions after
    /// it behind the central state. The regional controllers of this crate
    /// never refuse, so the call succeeds.
    pub fn distribute_policy_at(&mut self, policy: Policy, updated_at: String) -> (r: Result<
        (),
        ControllerError,
    >)
        requires
            stored_version(old(self).state().policy_views(), policy.id@) < u64::MAX,
        ensures
            r is Ok,
            final(self).wf(),
            final(self).config() == old(self).config(),
            final(self).state().policy_views() == distributed(
                old(self).state().policy_views(),
                policy@,
                updated_at@,
            ),
            final(self).state().pops == old(self).state().pops,
            final(self).state().tunnels == old(self).state().tunnels,
            final(self).state().routes == old(self).state().routes,
            final(self).regions().dom() == old(self).regions().dom(),
            forall|k: Seq<char>| #[trigger]
                old(self).regions().contains_key(k) ==> region_applied(
                    old(self).regions()[k],
                    final(self).regions()[k],
                    versioned(old(self).state().policy_views(), policy@, updated_at@),
                ),
    {
        proof {
            use_type_invariant(&*self);
        }
        let ghost stamped = versioned(self.state().policy_views(), policy@, updated_at@);
        let policy = self.version_policy(policy, updated_at);

        // The central state comes first.
        let mut policies: Table<Policy> = Table::new();
        core::mem::swap(&mut self.state.policies, &mut policies);
        let ghost policies_before = policies@;
        policies.insert(policy.id.clone(), policy.clone());
        proof {
            assert(policies@.map_values(|p: Policy| p@) =~= policies_before.map_values(
                |p: Policy| p@,
            ).insert(stamped.id, stamped));
        }
        core::mem::swap(&mut self.state.policies, &mut policies);

        // Then every region, in the order of the configuration.
        let mut regionals: Table<RegionalController> = Table::new();
        core::mem::swap(&mut self.regional_controllers, &mut regionals);
        let ghost regions_before = regionals;
        let n: usize = regionals.len();
        let mut i: usize = 0;
        let mut outcome: Result<(), ControllerError> = Ok(());
        proof {
            use_type_invariant(&regionals);
            regionals.lemma_view();
        }
        while i < n && outcome.is_ok()
            invariant
                regions_before.wf(),
                regionals.wf(),
                n == regionals.keys().len(),
                i <= n,
                outcome is Ok,
                policy@ == stamped,
                regionals.keys() == regions_before.keys(),
                regionals.values().len() == n,
                forall|j: int|
                    0 <= j < i ==> region_applied(
                        regions_before.values()[j],
                        #[trigger] regionals.values()[j],
                        stamped,
                    ),
                forall|j: int|
                    i <= j < n ==> #[trigger] regionals.values()[j] == regions_before.values()[j],
            decreases n - i,
        {
            let mut region = regionals.replace_value_at(
                i,
                RegionalController::new(Region(String::new())),
            );
            let applied = region.apply_policy(&policy);
            regionals.set_value_at(i, region);
            match applied {
                Ok(()) => {
                    i += 1;
                },
                Err(e) => {
                    outcome = Err(e);
                },
            }
        }
        proof {
            regions_before.lemma_view();
            regionals.lemma_view();
            assert(regionals@.dom() =~= regions_before@.dom());
            assert forall|k: Seq<char>| #[trigger]
                regions_before@.contains_key(k) implies region_applied(
                regions_before@[k],
                regionals@[k],
                stamped,
            ) by {
                let j = regions_before.keys().index_of(k);
                assert(regions_before.keys().contains(k));
                assert(regions_before.keys()[j] == k);
                assert(regionals.keys()[j] == k);
                assert(region_applied(regions_before.values()[j], regionals.values()[j], stamped));
            }
            assert(regions_keyed(regionals@));
        }
        core::mem::swap(&mut self.regional_controllers, &mut regionals);
        outcome
    }

    /// Distributes `policy` with the current time as its time stamp: the
    /// outcome is that of [`Self::distribute_policy_at`] for the text of the
    /// instant the clock gave.
    pub fn distribute_policy(&mut self, policy: Policy) -> (r: Result<(), ControllerError>)
        requires
            stored_version(old(self).state().policy_views(), policy.id@) < u64::MAX,
        ensures
            r is Ok,
            final(self).wf(),
            final(self).config() == old(self).config(),
            exists|at: Timestamp|
                at.text() is Some && final(self).state().policy_views() == distributed(
                    old(self).state().policy_views(),
                    policy@,
                    #[trigger] at.text()->0,
                ),
            stored_version(final(self).state().policy_views(), policy.id@) == stored_version(
                old(self).state().policy_views(),
                policy.id@,
            ) + 1,
            final(self).state().pops == old(self).state().pops,
            final(self).state().tunnels == old(self).state().tunnels,
            final(self).state().routes == old(self).state().routes,
            final(self).regions().dom() == old(self).regions().dom(),
            forall|k: Seq<char>| #[trigger]
                old(self).regions().contains_key(k) ==> final(self).regions()[k].policies()
                    == old(self).regions()[k].policies().insert(
                    policy.id@,
                    final(self).state().policy_views()[policy.id@],
                ),
    {
        let at = utc_now();
        let text = rfc3339(at);
        let stamp = text.unwrap();
        let r = self.distribute_policy_at(policy, stamp);
        proof {
            assert(at.text() is Some && self.state().policy_views() == distributed(
                old(self).state().policy_views(),
                policy@,
                at.text()->0,
            ));
        }
        r
    }

    /// The healthy PoP nearest to the client of `tunnel`: the one of lowest
    /// latency and, among several of that latency, the one whose id comes
    /// first. Fails with `NoHealthyPops` exactly when no PoP takes traffic.
    pub fn find_nearest_healthy_pop(&self, tunnel: &Tunnel) -> (r: Result<String, ControllerError>)
        ensures
            match r {
                Ok(id) => is_nearest_healthy(self.state().pops@, tunnel.client_location@, id@),
                Err(e) => e is NoHealthyPops && !has_healthy(self.state().pops@),
            },
    {
        proof {
            use_type_invariant(self);
        }
        nearest_healthy(&self.state.pops, tunnel.client_location.as_str())
    }

    /// Moves every tunnel that ends at `pop_id` to the healthy PoP nearest
    /// to its client: that PoP becomes the tunnel's only endpoint and the
    /// tunnel becomes active. Where a tunnel ends at `pop_id` and no PoP
    /// takes traffic, the call fails with `NoHealthyPops` and changes
    /// nothing.
    pub fn handle_pop_failure(&mut self, pop_id: &str) -> (r: Result<(), ControllerError>)
        ensures
            final(self).wf(),
            final(self).config() == old(self).config(),
            final(self).regions() == old(self).regions(),
            final(self).state().policies == old(self).state().policies,
            final(self).state().pops == old(self).state().pops,
            final(self).state().routes == old(self).state().routes,
            final(self).state().tunnels.keys() == old(self).state().tunnels.keys(),
            final(self).state().tunnels@.dom() == old(self).state().tunnels@.dom(),
            r is Err <==> any_ends_at(old(self).state().tunnels.values(), pop_id@) && !has_healthy(
                old(self).state().pops@,
            ),
            r is Err ==> r->Err_0 is NoHealthyPops && final(self).state().tunnels.values() == old(
                self,
            ).state().tunnels.values() && final(self).state().tunnels@ == old(
                self,
            ).state().tunnels@,
            r is Ok ==> forall|k: Seq<char>| #[trigger]
                old(self).state().tunnels@.contains_key(k) ==> reroute_outcome(
                    old(self).state().tunnels@[k],
                    final(self).state().tunnels@[k],
                    pop_id@,
                    old(self).state().pops@,
                ),
    {
        proof {
            use_type_invariant(&*self);
        }
        let mut tunnels: Table<Tunnel> = Table::new();
        core::mem::swap(&mut self.state.tunnels, &mut tunnels);
        let ghost before = tunnels;
        let ghost pops = self.state.pops@;
        let n: usize = tunnels.len();
        let mut i: usize = 0;
        let mut failed = false;
        proof {
            use_type_invariant(&tunnels);
            tunnels.lemma_view();
        }
        while i < n && !failed
            invariant
                before.wf(),
                tunnels.wf(),
                tunnels_keyed(before@),
                pops == self.state.pops@,
                pops_keyed(pops),
                n == tunnels.keys().len(),
                i <= n,
                tunnels.keys() == before.keys(),
                tunnels.values().len() == n,
                failed ==> tunnels.values() == before.values() && any_ends_at(
                    before.values(),
                    pop_id@,
                ) && !has_healthy(pops),
                !failed ==> forall|j: int|
                    0 <= j < i ==> reroute_outcome(
                        before.values()[j],
                        #[trigger] tunnels.values()[j],
                        pop_id@,
                        pops,
                    ),
                forall|j: int| i <= j < n ==> #[trigger] tunnels.values()[j] == before.values()[j],
                !failed ==> (any_ends_at(before.values().subrange(0, i as int), pop_id@)
                    ==> has_healthy(pops)),
            decreases n - i + if failed { 0int } else { 1int },
        {
            let ghost prefix = before.values().subrange(0, i as int);
            let ghost longer = before.values().subrange(0, i + 1);
            let tunnel = tunnels.value_at(i);
            let mut moved_on = true;
            if vec_contains_str(&tunnel.endpoints, pop_id) {
                match nearest_healthy(&self.state.pops, tunnel.client_location.as_str()) {
                    Ok(target) => {
                        let moved = moved_to(tunnel, target.as_str());
                        tunnels.set_value_at(i, moved);
                    },
                    Err(_) => {
                        proof {
                            assert(before.values()[i as int].ends_at(pop_id@));
                            assert(!any_ends_at(prefix, pop_id@));
                            assert forall|j: int| 0 <= j < n implies #[trigger] tunnels.values()[j]
                                == before.values()[j] by {
                                if j < i {
                                    assert(prefix[j] == before.values()[j]);
                                    assert(!prefix[j].ends_at(pop_id@));
                                }
                            }
                            assert(tunnels.values() =~= before.values());
                        }
                        failed = true;
                        moved_on = false;
                    },
                }
            }
            if moved_on {
                proof {
                    assert forall|j: int| 0 <= j < longer.len() && (#[trigger] longer[j]).ends_at(
                        pop_id@,
                    ) implies has_healthy(pops) by {
                        if j < i {
                            assert(prefix[j] == longer[j]);
                        }
                    }
                }
                i += 1;
            }
        }
        proof {
            before.lemma_view();
            tunnels.lemma_view();
            assert(tunnels@.dom() =~= before@.dom());
            if failed {
                assert(tunnels@ =~= before@);
            } else {
                assert(before.values().subrange(0, n as int) =~= before.values());
                assert forall|k: Seq<char>| #[trigger] before@.contains_key(k) implies reroute_outcome(
                    before@[k],
                    tunnels@[k],
                    pop_id@,
                    pops,
                ) by {
                    let j = before.keys().index_of(k);
                    assert(before.keys().contains(k));
                    assert(before.keys()[j] == k);
                    assert(tunnels.keys()[j] == k);
                    assert(reroute_outcome(
                        before.values()[j],
                        tunnels.values()[j],
                        pop_id@,
                        pops,
                    ));
                }
            }
            assert forall|k: Seq<char>| tunnels@.contains_key(k) implies (#[trigger] tunnels@[k]).id@
                == k by {
                let j = before.keys().index_of(k);
                assert(before.keys().contains(k));
                assert(before.keys()[j] == k);
                assert(before@[k].id@ == k);
                assert(tunnels.keys()[j] == k);
                if !failed {
                    assert(reroute_outcome(
                        before.values()[j],
                        tunnels.values()[j],
                        pop_id@,
                        pops,
                    ));
                }
            }
        }
        core::mem::swap(&mut self.state.tunnels, &mut tunnels);
        if failed {
            Err(ControllerError::NoHealthyPops)
        } else {
            Ok(())
        }
    }

    /// Makes `new_pop` the only endpoint of the tunnel `tunnel_id` and the
    /// tunnel active. A tunnel that is not known is left alone without
    /// notice.
    pub fn reroute_tunnel(&mut self, tunnel_id: &str, new_pop: &str) -> (r: Result<
        (),
        ControllerError,
    >)
        ensures
            r is Ok,
            final(self).wf(),
            final(self).config() == old(self).config(),
            final(self).regions() == old(self).regions(),
            final(self).state().policies == old(self).state().policies,
            final(self).state().pops == old(self).state().pops,
            final(self).state().routes == old(self).state().routes,
            final(self).state().tunnels.keys() == old(self).state().tunnels.keys(),
            final(self).state().tunnels@.dom() == old(self).state().tunnels@.dom(),
            forall|k: Seq<char>| #[trigger]
                old(self).state().tunnels@.contains_key(k) ==> if k == tunnel_id@ {
                    moved(
                        old(self).state().tunnels@[k],
                        final(self).state().tunnels@[k],
                        new_pop@,
                    )
                } else {
                    final(self).state().tunnels@[k] == old(self).state().tunnels@[k]
                },
    {
        proof {
            use_type_invariant(&*self);
        }
        let mut tunnels: Table<Tunnel> = Table::new();
        core::mem::swap(&mut self.state.tunnels, &mut tunnels);
        let ghost before = tunnels;
        proof {
            use_type_invariant(&tunnels);
            tunnels.lemma_view();
        }
        match tunnels.position(tunnel_id) {
            Some(i) => {
                let replacement = moved_to(tunnels.value_at(i), new_pop);
                tunnels.set_value_at(i, replacement);
            },
            None => {},
        }
        proof {
            tunnels.lemma_view();
            assert(tunnels@.dom() =~= before@.dom());
        }
        core::mem::swap(&mut self.state.tunnels, &mut tunnels);
        Ok(())
    }

    /// Stores the record of a PoP under its id. A PoP registered again
    /// replaces its earlier record without notice.
    pub fn register_pop(&mut self, pop: PopInfo) -> (r: Result<(), ControllerError>)
        ensures
            r is Ok,
            final(self).wf(),
            final(self).config() == old(self).config(),
            final(self).regions() == old(self).regions(),
            final(self).state().pops@ == old(self).state().pops@.insert(pop.id@, pop),
            final(self).state().pops.keys() == if old(self).state().pops.keys().contains(pop.id@) {
                old(self).state().pops.keys()
            } else {
                old(self).state().pops.keys().push(pop.id@)
            },
            final(self).state().policies == old(self).state().policies,
            final(self).state().tunnels == old(self).state().tunnels,
            final(self).state().routes == old(self).state().routes,
    {
        proof {
            use_type_invariant(&*self);
        }
        let mut pops: Table<PopInfo> = Table::new();
        core::mem::swap(&mut self.state.pops, &mut pops);
        pops.insert(pop.id.clone(), pop);
        core::mem::swap(&mut self.state.pops, &mut pops);
        Ok(())
    }

    /// Stores a tunnel under its id, in place of any tunnel stored under
    /// that id. The endpoints are not held against the known PoPs.
    pub fn register_tunnel(&mut self, tunnel: Tunnel) -> (r: Result<(), ControllerError>)
        ensures
            r is Ok,
            final(self).wf(),
            final(self).config() == old(self).config(),
            final(self).regions() == old(self).regions(),
            final(self).state().tunnels@ == old(self).state().tunnels@.insert(tunnel.id@, tunnel),
            final(self).state().tunnels.keys() == if old(self).state().tunnels.keys().contains(
                tunnel.id@,
            ) {
                old(self).state().tunnels.keys()
            } else {
                old(self).state().tunnels.keys().push(tunnel.id@)
            },
            final(self).state().policies == old(self).state().policies,
            final(self).state().pops == old(self).state().pops,
            final(self).state().routes == old(self).state().routes,
    {
        proof {
            use_type_invariant(&*self);
        }
        let mut tunnels: Table<Tunnel> = Table::new();
        core::mem::swap(&mut self.state.tunnels, &mut tunnels);
        tunnels.insert(tunnel.id.clone(), tunnel);
        core::mem::swap(&mut self.state.tunnels, &mut tunnels);
        Ok(())
    }

    /// Applies a heartbeat that `pop_id` sent at the time `at`: the record of
    /// a known PoP takes the reported health and load and the time stamp; a
    /// heartbeat of an unknown PoP is dropped without notice.
    pub fn apply_heartbeat(&mut self, pop_id: &str, status: PopStatus, at: String) -> (r: Result<
        (),
        ControllerError,
    >)
        ensures
            r is Ok,
            final(self).wf(),
            final(self).config() == old(self).config(),
            final(self).regions() == old(self).regions(),
            final(self).state().pops@ == pops_after_heartbeat(
                old(self).state().pops@,
                pop_id@,
                status,
                at,
            ),
            final(self).state().pops.keys() == old(self).state().pops.keys(),
            final(self).state().policies == old(self).state().policies,
            final(self).state().tunnels == old(self).state().tunnels,
            final(self).state().routes == old(self).state().routes,
    {
        proof {
            use_type_invariant(&*self);
        }
        let mut pops: Table<PopInfo> = Table::new();
        core::mem::swap(&mut self.state.pops, &mut pops);
        proof {
            use_type_invariant(&pops);
            pops.lemma_view();
        }
        match pops.position(pop_id) {
            Some(i) => {
                let known = pops.value_at(i);
                let updated = PopInfo {
                    id: known.id.clone(),
                    location: known.location.clone(),
                    region: known.region.clone(),
                    health: status.health,
                    active_connections: status.active_connections,
                    cpu_usage: status.cpu_usage,
                    memory_usage: status.memory_usage,
                    bandwidth_mbps: known.bandwidth_mbps,
                    last_heartbeat: at,
                };
                assert(updated == heartbeat_applied(*known, status, at));
                pops.set_value_at(i, updated);
            },
            None => {},
        }
        core::mem::swap(&mut self.state.pops, &mut pops);
        Ok(())
    }

    /// Applies a heartbeat of `pop_id` with the current time as its time
    /// stamp: the outcome is that of [`Self::apply_heartbeat`] for the text
    /// of the instant the clock gave.
    pub fn process_heartbeat(&mut self, pop_id: &str, status: PopStatus) -> (r: Result<
        (),
        ControllerError,
    >)
        ensures
            r is Ok,
            final(self).wf(),
            final(self).config() == old(self).config(),
            final(self).regions() == old(self).regions(),
            exists|at: String|
                is_instant_text(at@) && final(self).state().pops@ == #[trigger] pops_after_heartbeat(
                    old(self).state().pops@,
                    pop_id@,
                    status,
                    at,
                ),
            final(self).state().pops.keys() == old(self).state().pops.keys(),
            final(self).state().policies == old(self).state().policies,
            final(self).state().tunnels == old(self).state().tunnels,
            final(self).state().routes == old(self).state().routes,
    {
        let at = utc_now();
        let text = rfc3339(at);
        let stamp = text.unwrap();
        proof {
            assert(Some(stamp@) == at.text());
        }
        let r = self.apply_heartbeat(pop_id, status, stamp);
        proof {
            assert(is_instant_text(stamp@) && self.state().pops@ == pops_after_heartbeat(
                old(self).state().pops@,
                pop_id@,
                status,
                stamp,
            ));
        }
        r
    }

    /// The global state.
    pub fn get_state(&self) -> (s: &GlobalState)
        ensures
            *s == self.state(),
            self.wf(),
    {
        proof {
            use_type_invariant(self);
        }
        &self.state
    }

    /// The record of the PoP `pop_id`, if it is known.
    pub fn get_pop_status(&self, pop_id: &str) -> (r: Option<&PopInfo>)
        ensures
            match r {
                Some(p) => self.state().pops@.contains_key(pop_id@) && *p
                    == self.state().pops@[pop_id@],
                None => !self.state().pops@.contains_key(pop_id@),
            },
    {
        self.state.pops.get(pop_id)
    }

    /// The controller of the region `name`, if the region is configured.
    pub fn get_region(&self, name: &str) -> (r: Option<&RegionalController>)
        ensures
            match r {
                Some(c) => self.regions().contains_key(name@) && *c == self.regions()[name@],
                None => !self.regions().contains_key(name@),
            },
    {
        self.regional_controllers.get(name)
    }
}

/// The healthy PoP of `pops` nearest to a client at `client`.
fn nearest_healthy(pops: &Table<PopInfo>, client: &str) -> (r: Result<String, ControllerError>)
    requires
        pops_keyed(pops@),
    ensures
        match r {
            Ok(id) => is_nearest_healthy(pops@, client@, id@),
            Err(e) => e is NoHealthyPops && !has_healthy(pops@),
        },
{
    let n: usize = pops.len();
    let mut best: Option<usize> = None;
    let mut i: usize = 0;
    while i < n
        invariant
            n == pops.keys().len(),
            n == pops.values().len(),
            i <= n,
            match best {
                Some(b) => b < i && pops.values()[b as int].health.is_healthy() && forall|j: int|
                    0 <= j < i && (#[trigger] pops.values()[j]).health.is_healthy()
                        ==> closer_or_equal(
                        pops.values()[b as int],
                        pops.keys()[b as int],
                        pops.values()[j],
                        pops.keys()[j],
                        client@,
                    ),
                None => forall|j: int|
                    0 <= j < i ==> !(#[trigger] pops.values()[j]).health.is_healthy(),
            },
        decreases n - i,
    {
        let candidate = pops.value_at(i);
        if candidate.health.is_healthy() {
            match best {
                None => {
                    proof {
                        lemma_lex_le_total(pops.keys()[i as int], pops.keys()[i as int]);
                    }
                    best = Some(i);
                },
                Some(b) => {
                    let held = pops.value_at(b);
                    let held_latency = held.latency_to(client);
                    let latency = candidate.latency_to(client);
                    let keeps = held_latency < latency || (held_latency == latency && str_le(
                        pops.key_at(b).as_str(),
                        pops.key_at(i).as_str(),
                    ));
                    if !keeps {
                        proof {
                            let winner = pops.keys()[i as int];
                            lemma_lex_le_total(pops.keys()[b as int], winner);
                            lemma_lex_le_total(winner, winner);
                            assert forall|j: int|
                                0 <= j < i && (#[trigger] pops.values()[j]).health.is_healthy() implies closer_or_equal(
                                pops.values()[i as int],
                                winner,
                                pops.values()[j],
                                pops.keys()[j],
                                client@,
                            ) by {
                                if pops.values()[j].spec_latency_to(client@) == latency {
                                    lemma_lex_le_transitive(
                                        winner,
                                        pops.keys()[b as int],
                                        pops.keys()[j],
                                    );
                                }
                            }
                        }
                        best = Some(i);
                    }
                },
            }
        }
        i += 1;
    }
    proof {
        use_type_invariant(pops);
        pops.lemma_view();
    }
    match best {
        Some(b) => {
            let id = pops.value_at(b).id.clone();
            proof {
                let key = pops.keys()[b as int];
                assert(pops@.contains_key(key) && pops@[key] == pops.values()[b as int]);
                assert(id@ == key);
                assert forall|k: Seq<char>|
                    pops@.contains_key(k) && (#[trigger] pops@[k]).health.is_healthy() implies closer_or_equal(
                    pops@[key],
                    key,
                    pops@[k],
                    k,
                    client@,
                ) by {
                    let j = pops.keys().index_of(k);
                    assert(pops.keys().contains(k));
                    assert(pops.keys()[j] == k);
                    assert(pops@[pops.keys()[j]] == pops.values()[j]);
                }
            }
            Ok(id)
        },
        None => {
            proof {
                assert forall|k: Seq<char>| pops@.contains_key(k) implies !(#[trigger] pops@[k]).health.is_healthy() by {
                    let j = pops.keys().index_of(k);
                    assert(pops.keys().contains(k));
                    assert(pops.keys()[j] == k);
                    assert(pops@[pops.keys()[j]] == pops.values()[j]);
                }
            }
            Err(ControllerError::NoHealthyPops)
        },
    }
}

} // verus!
