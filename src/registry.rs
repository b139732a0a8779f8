use vstd::prelude::*;
use std::collections::HashMap;
use crate::types::Principal;

verus! {

broadcast use vstd::std_specs::hash::group_hash_axioms;

/// Where a payee stands in the identity registry.
#[derive(Clone, Copy, Debug, PartialEq, Eq, Structural)]
pub enum ExpertStatus {
    Unverified,
    Verified,
    Banned,
}

/// Typed failures of the registry's operations.
#[derive(Clone, Copy, Debug, PartialEq, Eq, Structural)]
pub enum RegistryError {
    NotInitialized,
    AlreadyInitialized,
    AlreadyVerified,
    AlreadyBanned,
    /// The principal that authorized the call is not the administrator.
    NotAuthorized,
}

/// An administrator-gated map from payee to verification status.
pub struct IdentityRegistryContract {
    admin: Option<Principal>,
    experts: HashMap<u64, ExpertStatus>,
}

/// The mathematical model of a registry: its administrator and the status
/// recorded for each principal id.
pub struct RegistryModel {
    pub admin: Option<Principal>,
    pub experts: Map<u64, ExpertStatus>,
}

impl RegistryModel {
    /// A principal never recorded is `Unverified`.
    pub open spec fn status_of(self, expert: Principal) -> ExpertStatus {
        if self.experts.contains_key(expert.id) {
            self.experts[expert.id]
        } else {
            ExpertStatus::Unverified
        }
    }

    /// The outcome of moving `expert` to `target` on `signer`'s authority:
    /// the administrator must have authorized it, and the status must change.
    pub open spec fn change_result(
        self,
        signer: Principal,
        expert: Principal,
        target: ExpertStatus,
        already: RegistryError,
    ) -> Result<(), RegistryError> {
        if self.admin is None {
            Err(RegistryError::NotInitialized)
        } else if Some(signer) != self.admin {
            Err(RegistryError::NotAuthorized)
        } else if self.status_of(expert) == target {
            Err(already)
        } else {
            Ok(())
        }
    }
}

impl View for IdentityRegistryContract {
    type V = RegistryModel;

    closed spec fn view(&self) -> RegistryModel {
        RegistryModel { admin: self.admin, experts: self.experts@ }
    }
}

impl IdentityRegistryContract {
    /// An empty registry without an administrator.
    pub fn new() -> (r: Self)
        ensures
            r@.admin is None,
            r@.experts == Map::<u64, ExpertStatus>::empty(),
    {
        IdentityRegistryContract { admin: None, experts: HashMap::new() }
    }

    fn set_status(&mut self, signer: Principal, expert: Principal, target: ExpertStatus, already: RegistryError) -> (r:
        Result<(), RegistryError>)
        ensures
            r == old(self)@.change_result(signer, expert, target, already),
            r is Ok ==> final(self)@ == (RegistryModel {
                experts: old(self)@.experts.insert(expert.id, target),
                ..old(self)@
            }),
            r is Err ==> final(self)@ == old(self)@,
    {
        let admin = match self.admin {
            Some(a) => a,
            None => {
                return Err(RegistryError::NotInitialized);
            },
        };
        if signer != admin {
            return Err(RegistryError::NotAuthorized);
        }
        if get_expert_status(self, expert) == target {
            return Err(already);
        }
        self.experts.insert(expert.id, target);
        Ok(())
    }
}

/// Records the registry's administrator, unless one was recorded before.
pub fn initialize_registry(registry: &mut IdentityRegistryContract, admin: Principal) -> (r: Result<
    (),
    RegistryError,
>)
    ensures
        old(registry)@.admin is Some ==> r == Err::<(), RegistryError>(
            RegistryError::AlreadyInitialized,
        ) && final(registry)@ == old(registry)@,
        old(registry)@.admin is None ==> r == Ok::<(), RegistryError>(()) && final(registry)@ == (
        RegistryModel { admin: Some(admin), ..old(registry)@ }),
{
    if registry.admin.is_some() {
        return Err(RegistryError::AlreadyInitialized);
    }
    registry.admin = Some(admin);
    Ok(())
}

/// Marks `expert` as verified, on the administrator's authority.
pub fn verify_expert(registry: &mut IdentityRegistryContract, signer: Principal, expert: Principal) -> (r:
    Result<(), RegistryError>)
    ensures
        r == old(registry)@.change_result(
            signer,
            expert,
            ExpertStatus::Verified,
            RegistryError::AlreadyVerified,
        ),
        r is Ok ==> final(registry)@ == (RegistryModel {
            experts: old(registry)@.experts.insert(expert.id, ExpertStatus::Verified),
            ..old(registry)@
        }),
        r is Err ==> final(registry)@ == old(registry)@,
{
    registry.set_status(signer, expert, ExpertStatus::Verified, RegistryError::AlreadyVerified)
}

/// Marks `expert` as banned, on the administrator's authority, whatever its
/// status was unless it was banned already.
pub fn ban_expert(registry: &mut IdentityRegistryContract, signer: Principal, expert: Principal) -> (r:
    Result<(), RegistryError>)
    ensures
        r == old(registry)@.change_result(
            signer,
            expert,
            ExpertStatus::Banned,
            RegistryError::AlreadyBanned,
        ),
        r is Ok ==> final(registry)@ == (RegistryModel {
            experts: old(registry)@.experts.insert(expert.id, ExpertStatus::Banned),
            ..old(registry)@
        }),
        r is Err ==> final(registry)@ == old(registry)@,
{
    registry.set_status(signer, expert, ExpertStatus::Banned, RegistryError::AlreadyBanned)
}

/// The status recorded for `expert`; `Unverified` when none was.
pub fn get_expert_status(registry: &IdentityRegistryContract, expert: Principal) -> (r: ExpertStatus)
    ensures
        r == registry@.status_of(expert),
{
    match registry.experts.get(&expert.id) {
        Some(s) => *s,
        None => ExpertStatus::Unverified,
    }
}

} // verus!
