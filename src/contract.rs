use vstd::prelude::*;
use crate::error::VaultError;
use crate::storage::{has_admin, set_admin, set_oracle, set_token, PaymentVaultContract, VaultModel};
use crate::types::Principal;

verus! {

/// Records the administrator, the payment token and the oracle, all at once,
/// unless the vault was configured before.
pub fn initialize_vault(
    vault: &mut PaymentVaultContract,
    admin: Principal,
    token: Principal,
    oracle: Principal,
) -> (r: Result<(), VaultError>)
    requires
        old(vault).wf(),
    ensures
        final(vault).wf(),
        old(vault)@.admin is Some ==> r == Err::<(), VaultError>(VaultError::AlreadyInitialized)
            && final(vault)@ == old(vault)@,
        old(vault)@.admin is None ==> r == Ok::<(), VaultError>(()) && final(vault)@ == (VaultModel {
            admin: Some(admin),
            token: Some(token),
            oracle: Some(oracle),
            ..old(vault)@
        }),
{
    if has_admin(vault) {
        return Err(VaultError::AlreadyInitialized);
    }
    set_admin(vault, admin);
    set_token(vault, token);
    set_oracle(vault, oracle);
    Ok(())
}

impl PaymentVaultContract {
    /// Configures the vault with its administrator, payment token and oracle.
    pub fn init(&mut self, admin: Principal, token: Principal, oracle: Principal) -> (r: Result<
        (),
        VaultError,
    >)
        requires
            old(self).wf(),
        ensures
            final(self).wf(),
            old(self)@.admin is Some ==> r == Err::<(), VaultError>(VaultError::AlreadyInitialized)
                && final(self)@ == old(self)@,
            old(self)@.admin is None ==> r == Ok::<(), VaultError>(()) && final(self)@ == (VaultModel {
                admin: Some(admin),
                token: Some(token),
                oracle: Some(oracle),
                ..old(self)@
            }),
    {
        initialize_vault(self, admin, token, oracle)
    }
}

} // verus!
