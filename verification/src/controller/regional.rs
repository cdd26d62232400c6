//! The controller of one region: the policies in force there and the PoPs
//! that belong to it.

use vstd::prelude::*;
use crate::controller::types::{stored_version, ControllerError, Policy, PolicyView, Region};
use crate::table::Table;

verus! {

/// Keeps the policies in force in one region and the PoPs of that region.
/// Pushing a policy on to the PoPs is the transport's business.
#[derive(Debug)]
pub struct RegionalController {
    region: Region,
    pops: Vec<String>,
    active_policies: Table<Policy>,
}

impl RegionalController {
    /// The name of the region.
    pub closed spec fn region_name(&self) -> Seq<char> {
        self.region.0@
    }

    /// The ids of the PoPs of the region, in the order of their registration.
    pub closed spec fn pop_ids(&self) -> Seq<Seq<char>> {
        self.pops.deep_view()
    }

    /// The policies in force, by policy id.
    pub closed spec fn policies(&self) -> Map<Seq<char>, PolicyView> {
        self.active_policies@.map_values(|p: Policy| p@)
    }

    /// A controller for `region` with no PoP and no policy.
    pub fn new(region: Region) -> (c: RegionalController)
        ensures
            c.region_name() == region.0@,
            c.pop_ids() == Seq::<Seq<char>>::empty(),
            c.policies() == Map::<Seq<char>, PolicyView>::empty(),
    {
        let c = RegionalController { region, pops: Vec::new(), active_policies: Table::new() };
        assert(c.pop_ids() =~= Seq::<Seq<char>>::empty());
        assert(c.policies() =~= Map::<Seq<char>, PolicyView>::empty());
        c
    }

    /// Puts `policy` in force under its id, in place of any policy held
    /// under that id, whatever the two versions are. Never fails.
    pub fn apply_policy(&mut self, policy: &Policy) -> (r: Result<(), ControllerError>)
        ensures
            r is Ok,
            final(self).region_name() == old(self).region_name(),
            final(self).pop_ids() == old(self).pop_ids(),
            final(self).policies() == old(self).policies().insert(policy.id@, policy@),
    {
        let copy = policy.clone();
        let id = policy.id.clone();
        self.active_policies.insert(id, copy);
        assert(self.policies() =~= old(self).policies().insert(policy.id@, policy@));
        Ok(())
    }

    /// Puts `policy` in force only if its version is higher than that of
    /// the policy held under its id, so that the region never falls back to
    /// an older policy when policies arrive out of order. A policy that is
    /// not newer is refused with `PolicyDistributionFailed`, which names the
    /// region, and changes nothing.
    pub fn apply_newer_policy(&mut self, policy: &Policy) -> (r: Result<(), ControllerError>)
        ensures
            final(self).region_name() == old(self).region_name(),
            final(self).pop_ids() == old(self).pop_ids(),
            r is Ok <==> stored_version(old(self).policies(), policy.id@) < policy.version,
            r is Ok ==> final(self).policies() == old(self).policies().insert(policy.id@, policy@),
            r is Err ==> final(self).policies() == old(self).policies() && (
            r->Err_0 matches ControllerError::PolicyDistributionFailed(region) && region@ == old(
                self,
            ).region_name()),
    {
        let held: u64 = match self.active_policies.get(policy.id.as_str()) {
            Some(p) => p.version,
            None => 0,
        };
        if held < policy.version {
            self.apply_policy(policy)
        } else {
            Err(ControllerError::PolicyDistributionFailed(self.region.0.clone()))
        }
    }

    /// Adds a PoP to the region.
    pub fn register_pop(&mut self, pop_id: String)
        ensures
            final(self).region_name() == old(self).region_name(),
            final(self).policies() == old(self).policies(),
            final(self).pop_ids() == old(self).pop_ids().push(pop_id@),
    {
        self.pops.push(pop_id);
        assert(self.pop_ids() =~= old(self).pop_ids().push(pop_id@));
    }

    /// The region this controller serves.
    pub fn get_region(&self) -> (r: &Region)
        ensures
            r.0@ == self.region_name(),
    {
        &self.region
    }

    /// The policy in force under `id`, if there is one.
    pub fn get_policy(&self, id: &str) -> (r: Option<&Policy>)
        ensures
            match r {
                Some(p) => self.policies().contains_key(id@) && p@ == self.policies()[id@],
                None => !self.policies().contains_key(id@),
            },
    {
        self.active_policies.get(id)
    }

    /// The PoPs of the region, in the order of their registration.
    pub fn get_pops(&self) -> (r: &Vec<String>)
        ensures
            r.deep_view() == self.pop_ids(),
    {
        &self.pops
    }
}

} // verus!
