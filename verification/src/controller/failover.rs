//! Lease-based fail-over: which controller instance may act as primary.

use vstd::prelude::*;
use crate::clock::{rfc3339, text_of, utc_now, Timestamp};
use crate::controller::types::{ControllerError, Role};

verus! {

/// The number a role is stored as.
pub open spec fn role_code(role: Role) -> u8 {
    match role {
        Role::Primary => 0,
        Role::Secondary => 1,
        Role::Observer => 2,
    }
}

/// The role a stored number stands for. Numbers that no role is stored as
/// read as `Observer`, the role that never leads.
pub open spec fn role_of_code(code: u8) -> Role {
    if code == 0 {
        Role::Primary
    } else if code == 1 {
        Role::Secondary
    } else {
        Role::Observer
    }
}

/// Storing a role and reading it back gives the role.
pub proof fn lemma_role_code_round_trip(role: Role)
    ensures
        role_of_code(role_code(role)) == role,
{
}

/// A register that holds a role as a small number. Reads share it; a write
/// needs it exclusively, so writes are serialised by the borrow of the
/// register.
#[derive(Debug)]
pub struct AtomicRole {
    code: u8,
}

impl AtomicRole {
    /// The role held.
    pub closed spec fn role(&self) -> Role {
        role_of_code(self.code)
    }

    /// A register that holds `role`.
    pub fn new(role: Role) -> (r: AtomicRole)
        ensures
            r.role() == role,
    {
        AtomicRole { code: encode(role) }
    }

    /// The role held.
    pub fn load(&self) -> (role: Role)
        ensures
            role == self.role(),
    {
        if self.code == 0 {
            Role::Primary
        } else if self.code == 1 {
            Role::Secondary
        } else {
            Role::Observer
        }
    }

    /// Replaces the role held.
    pub fn store(&mut self, role: Role)
        ensures
            final(self).role() == role,
    {
        self.code = encode(role);
    }
}

fn encode(role: Role) -> (code: u8)
    ensures
        code == role_code(role),
{
    match role {
        Role::Primary => 0,
        Role::Secondary => 1,
        Role::Observer => 2,
    }
}

/// A claim to leadership, bounded in time.
#[derive(Debug)]
pub struct Lease {
    pub holder: String,
    pub acquired_at: String,
    pub expires_at: String,
    pub version: u64,
}

/// What a [`Lease`] holds, as mathematical values.
pub struct LeaseView {
    pub holder: Seq<char>,
    pub acquired_at: Seq<char>,
    pub expires_at: Seq<char>,
    pub version: u64,
}

impl View for Lease {
    type V = LeaseView;

    open spec fn view(&self) -> LeaseView {
        LeaseView {
            holder: self.holder@,
            acquired_at: self.acquired_at@,
            expires_at: self.expires_at@,
            version: self.version,
        }
    }
}

impl Clone for Lease {
    fn clone(&self) -> (r: Lease)
        ensures
            r == *self,
    {
        Lease {
            holder: self.holder.clone(),
            acquired_at: self.acquired_at.clone(),
            expires_at: self.expires_at.clone(),
            version: self.version,
        }
    }
}

/// Another controller instance, as this one sees it.
#[derive(Debug)]
pub struct PeerController {
    pub id: String,
    pub address: String,
    pub last_heartbeat: Option<String>,
}

impl Clone for PeerController {
    fn clone(&self) -> (r: PeerController)
        ensures
            r.id == self.id,
            r.address == self.address,
            text_of(r.last_heartbeat) == text_of(self.last_heartbeat),
    {
        PeerController {
            id: self.id.clone(),
            address: self.address.clone(),
            last_heartbeat: match &self.last_heartbeat {
                Some(s) => Some(s.clone()),
                None => None,
            },
        }
    }
}

/// The seconds a lease lasts unless it is renewed.
pub const LEASE_DURATION_SECS: u64 = 15;

/// The acquisition and expiry texts of a lease taken at `now` for
/// `duration_secs` seconds; `None` where one of the two instants has no text.
pub open spec fn lease_window(now: Timestamp, duration_secs: u64) -> Option<
    (Seq<char>, Seq<char>),
> {
    match (now.text(), now.spec_plus_secs(duration_secs)) {
        (Some(acquired), Some(end)) => match end.text() {
            Some(expires) => Some((acquired, expires)),
            None => None,
        },
        _ => None,
    }
}

/// The expiry text of a lease renewed at `now` for `duration_secs` seconds.
pub open spec fn renewed_expiry(now: Timestamp, duration_secs: u64) -> Option<Seq<char>> {
    match now.spec_plus_secs(duration_secs) {
        Some(end) => end.text(),
        None => None,
    }
}

/// The state machine of one controller instance in the election of the
/// primary: `Secondary` at first, `Primary` while it holds a lease, and
/// `Secondary` again once it steps down.
#[derive(Debug)]
pub struct FailoverManager {
    node_id: String,
    role: AtomicRole,
    peers: Vec<PeerController>,
    lease: Option<Lease>,
    lease_duration_secs: u64,
}

impl FailoverManager {
    /// The id of this instance.
    pub closed spec fn node_id(&self) -> Seq<char> {
        self.node_id@
    }

    /// The role of this instance.
    pub closed spec fn role(&self) -> Role {
        self.role.role()
    }

    /// The peers, as given at construction.
    pub closed spec fn peers(&self) -> Seq<PeerController> {
        self.peers@
    }

    /// The lease held, if any.
    pub closed spec fn lease(&self) -> Option<LeaseView> {
        match self.lease {
            Some(l) => Some(l@),
            None => None,
        }
    }

    /// The seconds a lease of this instance lasts.
    pub closed spec fn lease_duration_secs(&self) -> u64 {
        self.lease_duration_secs
    }

    /// Whether some peer has reported a heartbeat.
    pub open spec fn spec_primary_alive(&self) -> bool {
        exists|i: int| 0 <= i < self.peers().len() && self.peers()[i].last_heartbeat is Some
    }

    /// Whether the version of the lease held, if any, can still grow.
    pub open spec fn can_renew(&self) -> bool {
        match self.lease() {
            Some(l) => l.version < u64::MAX,
            None => true,
        }
    }

    /// The lease this instance takes with the given texts.
    pub open spec fn first_lease(&self, acquired_at: Seq<char>, expires_at: Seq<char>) -> LeaseView {
        LeaseView { holder: self.node_id(), acquired_at, expires_at, version: 1 }
    }

    /// An instance without a lease, in the role `Secondary`, whose leases
    /// last fifteen seconds.
    pub fn new(node_id: String, peers: Vec<PeerController>) -> (m: FailoverManager)
        ensures
            m.node_id() == node_id@,
            m.peers() == peers@,
            m.role() == Role::Secondary,
            m.lease() is None,
            m.lease_duration_secs() == LEASE_DURATION_SECS,
    {
        FailoverManager {
            node_id,
            role: AtomicRole::new(Role::Secondary),
            peers,
            lease: None,
            lease_duration_secs: LEASE_DURATION_SECS,
        }
    }

    /// The role of this instance.
    pub fn get_role(&self) -> (role: Role)
        ensures
            role == self.role(),
    {
        self.role.load()
    }

    /// Whether this instance is the primary.
    pub fn is_primary(&self) -> (b: bool)
        ensures
            b == (self.role() == Role::Primary),
    {
        self.role.load() == Role::Primary
    }

    /// Takes a lease with the given acquisition and expiry texts and becomes
    /// primary. This does not contend with other instances: the lease is
    /// local, and exclusive only where a lock service has granted it.
    pub fn install_lease(&mut self, acquired_at: String, expires_at: String)
        ensures
            final(self).role() == Role::Primary,
            final(self).lease() == Some(old(self).first_lease(acquired_at@, expires_at@)),
            final(self).node_id() == old(self).node_id(),
            final(self).peers() == old(self).peers(),
            final(self).lease_duration_secs() == old(self).lease_duration_secs(),
    {
        self.lease = Some(
            Lease { holder: self.node_id.clone(), acquired_at, expires_at, version: 1 },
        );
        self.role.store(Role::Primary);
    }

    /// Takes a lease that starts at `now` and lasts the configured duration,
    /// and becomes primary. Fails with `ConnectionFailed`, changing nothing,
    /// where the start or the end of the lease has no RFC 3339 text.
    pub fn acquire_lease_at(&mut self, now: Timestamp) -> (r: Result<(), ControllerError>)
        ensures
            acquire_outcome(*old(self), now, *final(self), r),
    {
        let acquired = rfc3339(now);
        let expires = match now.plus_secs(self.lease_duration_secs) {
            Some(end) => rfc3339(end),
            None => None,
        };
        match (acquired, expires) {
            (Some(a), Some(e)) => {
                self.install_lease(a, e);
                Ok(())
            },
            _ => Err(ControllerError::ConnectionFailed("clock out of range".to_owned())),
        }
    }

    /// Takes a lease that starts now and becomes primary: the outcome is
    /// that of [`Self::acquire_lease_at`] for the instant the clock gave.
    pub fn acquire_lease(&mut self) -> (r: Result<(), ControllerError>)
        ensures
            exists|at: Timestamp| at.text() is Some && acquire_outcome(*old(self), at, *final(self), r),
    {
        let at = utc_now();
        let r = self.acquire_lease_at(at);
        assert(at.text() is Some && acquire_outcome(*old(self), at, *self, r));
        r
    }

    /// Acts on the answer of a lock service that was asked for the
    /// leadership lock in the name of this instance: where the lock was
    /// granted, the instance takes a lease that starts at `now` and becomes
    /// primary, as [`Self::acquire_lease_at`] does; where it was refused,
    /// the call fails with `NoLease` and changes nothing.
    pub fn acquire_lease_if_granted(&mut self, granted: bool, now: Timestamp) -> (r: Result<
        (),
        ControllerError,
    >)
        ensures
            contend_outcome(*old(self), granted, now, *final(self), r),
    {
        if granted {
            self.acquire_lease_at(now)
        } else {
            Err(ControllerError::NoLease)
        }
    }

    /// Gives the lease held a new expiry text and the next version. Fails
    /// with `NoLease`, changing nothing, where no lease is held.
    pub fn extend_lease(&mut self, expires_at: String) -> (r: Result<(), ControllerError>)
        requires
            old(self).can_renew(),
        ensures
            extend_outcome(*old(self), Some(expires_at@), *final(self), r),
    {
        let renewed = match &self.lease {
            Some(l) => Some(
                Lease {
                    holder: l.holder.clone(),
                    acquired_at: l.acquired_at.clone(),
                    expires_at,
                    version: l.version + 1,
                },
            ),
            None => None,
        };
        match renewed {
            Some(l) => {
                self.lease = Some(l);
                Ok(())
            },
            None => Err(ControllerError::NoLease),
        }
    }

    /// Renews the lease held so that it ends the configured duration after
    /// `now`. Fails with `NoLease` where no lease is held, and with
    /// `ConnectionFailed` where the new end has no RFC 3339 text; a failure
    /// changes nothing.
    pub fn renew_lease_at(&mut self, now: Timestamp) -> (r: Result<(), ControllerError>)
        requires
            old(self).can_renew(),
        ensures
            extend_outcome(
                *old(self),
                renewed_expiry(now, old(self).lease_duration_secs()),
                *final(self),
                r,
            ),
    {
        if self.lease.is_none() {
            return Err(ControllerError::NoLease);
        }
        let expires = match now.plus_secs(self.lease_duration_secs) {
            Some(end) => rfc3339(end),
            None => None,
        };
        match expires {
            Some(e) => self.extend_lease(e),
            None => Err(ControllerError::ConnectionFailed("clock out of range".to_owned())),
        }
    }

    /// Renews the lease held, counting from now: the outcome is that of
    /// [`Self::renew_lease_at`] for the instant the clock gave. Call it more
    /// often than the lease lasts, or step down first.
    pub fn renew_lease(&mut self) -> (r: Result<(), ControllerError>)
        requires
            old(self).can_renew(),
        ensures
            exists|at: Timestamp|
                at.text() is Some && extend_outcome(
                    *old(self),
                    renewed_expiry(at, old(self).lease_duration_secs()),
                    *final(self),
                    r,
                ),
            old(self).lease() is None <==> r is Err && r->Err_0 is NoLease,
    {
        let at = utc_now();
        let r = self.renew_lease_at(at);
        assert(at.text() is Some && extend_outcome(
            *old(self),
            renewed_expiry(at, old(self).lease_duration_secs()),
            *self,
            r,
        ));
        r
    }

    /// Whether a primary seems to be alive: whether some peer has reported a
    /// heartbeat.
    pub fn primary_alive(&self) -> (b: bool)
        ensures
            b == self.spec_primary_alive(),
    {
        let n: usize = self.peers.len();
        let mut i: usize = 0;
        while i < n
            invariant
                n == self.peers@.len(),
                i <= n,
                forall|k: int| 0 <= k < i ==> self.peers@[k].last_heartbeat is None,
            decreases n - i,
        {
            if self.peers[i].last_heartbeat.is_some() {
                return true;
            }
            i += 1;
        }
        false
    }

    /// Whether this instance should stand for election: a secondary should
    /// where no primary seems to be alive; a primary has nothing to gain and
    /// an observer never competes.
    pub fn should_campaign(&self) -> (b: bool)
        ensures
            b == (self.role() == Role::Secondary && !self.spec_primary_alive()),
    {
        self.role.load() == Role::Secondary && !self.primary_alive()
    }

    /// Renews the lease as [`Self::renew_lease_at`] does and steps down where
    /// that fails, so that an instance that cannot extend its lease stops
    /// acting as primary before the lease runs out elsewhere.
    pub fn renew_or_step_down_at(&mut self, now: Timestamp) -> (r: Result<(), ControllerError>)
        requires
            old(self).can_renew(),
        ensures
            same_instance(*old(self), *final(self)),
            r is Ok <==> old(self).lease() is Some && renewed_expiry(
                now,
                old(self).lease_duration_secs(),
            ) is Some,
            r is Ok ==> extend_outcome(
                *old(self),
                renewed_expiry(now, old(self).lease_duration_secs()),
                *final(self),
                r,
            ),
            r is Err ==> final(self).role() == Role::Secondary && final(self).lease() is None && (
            r->Err_0 is NoLease <==> old(self).lease() is None),
    {
        let r = self.renew_lease_at(now);
        if r.is_err() {
            self.step_down();
        }
        r
    }

    /// Renews the lease, counting from now, and steps down where that
    /// fails: the outcome is that of [`Self::renew_or_step_down_at`] for the
    /// instant the clock gave.
    pub fn renew_or_step_down(&mut self) -> (r: Result<(), ControllerError>)
        requires
            old(self).can_renew(),
        ensures
            same_instance(*old(self), *final(self)),
            old(self).lease() is None ==> r is Err,
            r is Ok ==> final(self).role() == old(self).role() && final(self).lease() is Some,
            r is Err ==> final(self).role() == Role::Secondary && final(self).lease() is None && (
            r->Err_0 is NoLease <==> old(self).lease() is None),
    {
        let at = utc_now();
        self.renew_or_step_down_at(at)
    }

    /// Gives up leadership: the role becomes `Secondary` and the lease is
    /// dropped. Run it on every controlled shutdown, so that a peer can take
    /// over without waiting for the lease to run out.
    pub fn step_down(&mut self)
        ensures
            final(self).role() == Role::Secondary,
            final(self).lease() is None,
            final(self).node_id() == old(self).node_id(),
            final(self).peers() == old(self).peers(),
            final(self).lease_duration_secs() == old(self).lease_duration_secs(),
    {
        self.role.store(Role::Secondary);
        self.lease = None;
    }

    /// The lease held, if any.
    pub fn get_lease(&self) -> (r: Option<&Lease>)
        ensures
            match r {
                Some(l) => self.lease() == Some(l@),
                None => self.lease() is None,
            },
    {
        self.lease.as_ref()
    }
}

/// Whether two managers differ at most in role and lease.
pub open spec fn same_instance(a: FailoverManager, b: FailoverManager) -> bool {
    &&& a.node_id() == b.node_id()
    &&& a.peers() == b.peers()
    &&& a.lease_duration_secs() == b.lease_duration_secs()
}

/// What taking a lease at `now` does to a manager: with both texts at hand
/// it holds the first lease and is primary, and the call succeeds; without
/// them it fails with `ConnectionFailed` and role and lease stay.
pub open spec fn acquire_outcome(
    before: FailoverManager,
    now: Timestamp,
    after: FailoverManager,
    r: Result<(), ControllerError>,
) -> bool {
    &&& same_instance(before, after)
    &&& match lease_window(now, before.lease_duration_secs()) {
        Some((acquired, expires)) => {
            &&& r is Ok
            &&& after.role() == Role::Primary
            &&& after.lease() == Some(before.first_lease(acquired, expires))
        },
        None => {
            &&& r is Err
            &&& r->Err_0 is ConnectionFailed
            &&& after.role() == before.role()
            &&& after.lease() == before.lease()
        },
    }
}

/// What the answer of a lock service does to a manager that asked for the
/// leadership lock: granted, the manager takes a lease at `now`; refused, it
/// fails with `NoLease` and stays as it is.
pub open spec fn contend_outcome(
    before: FailoverManager,
    granted: bool,
    now: Timestamp,
    after: FailoverManager,
    r: Result<(), ControllerError>,
) -> bool {
    if granted {
        acquire_outcome(before, now, after, r)
    } else {
        &&& same_instance(before, after)
        &&& r is Err
        &&& r->Err_0 is NoLease
        &&& after.role() == before.role()
        &&& after.lease() == before.lease()
    }
}

/// Whether a correct lock service, whose lock `holder` holds, grants the
/// lock to `requester`: it does where the lock is free or the requester
/// holds it already.
pub open spec fn lock_grants(holder: Option<Seq<char>>, requester: Seq<char>) -> bool {
    holder is None || holder == Some(requester)
}

/// Who holds the lock of a correct lock service after `requester` asked
/// for it.
pub open spec fn lock_after(holder: Option<Seq<char>>, requester: Seq<char>) -> Option<Seq<char>> {
    if lock_grants(holder, requester) {
        Some(requester)
    } else {
        holder
    }
}

/// Leader uniqueness: two instances with different ids, neither of them
/// primary, ask a correct lock service for a free lock one after the other
/// and act on its answers. Then exactly one of them is primary afterwards,
/// provided the clock readings of both have lease texts.
pub proof fn lemma_one_leader_under_a_correct_lock(
    first: FailoverManager,
    second: FailoverManager,
    first_now: Timestamp,
    second_now: Timestamp,
    first_after: FailoverManager,
    second_after: FailoverManager,
    first_result: Result<(), ControllerError>,
    second_result: Result<(), ControllerError>,
)
    requires
        first.node_id() != second.node_id(),
        first.role() != Role::Primary,
        second.role() != Role::Primary,
        lease_window(first_now, first.lease_duration_secs()) is Some,
        lease_window(second_now, second.lease_duration_secs()) is Some,
        contend_outcome(
            first,
            lock_grants(None, first.node_id()),
            first_now,
            first_after,
            first_result,
        ),
        contend_outcome(
            second,
            lock_grants(lock_after(None, first.node_id()), second.node_id()),
            second_now,
            second_after,
            second_result,
        ),
    ensures
        first_after.role() == Role::Primary,
        second_after.role() != Role::Primary,
        first_result is Ok,
        second_result is Err,
{
}

/// What renewing with the expiry text `expires_at` does to a manager:
/// without a lease it fails with `NoLease`; with a lease and a text the
/// lease gets the text and the next version, and the call succeeds; with a
/// lease and no text it fails with `ConnectionFailed`. The role stays in
/// every case, and a failure leaves the lease as it was.
pub open spec fn extend_outcome(
    before: FailoverManager,
    expires_at: Option<Seq<char>>,
    after: FailoverManager,
    r: Result<(), ControllerError>,
) -> bool {
    &&& same_instance(before, after)
    &&& after.role() == before.role()
    &&& match (before.lease(), expires_at) {
        (None, _) => r is Err && r->Err_0 is NoLease && after.lease() is None,
        (Some(l), Some(e)) => r is Ok && after.lease() == Some(
            LeaseView { expires_at: e, version: (l.version + 1) as u64, ..l },
        ),
        (Some(l), None) => r is Err && r->Err_0 is ConnectionFailed && after.lease() == Some(l),
    }
}

} // verus!
