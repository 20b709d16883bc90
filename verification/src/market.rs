//! The market's persisted cross-references and the vault consistency check.

use vstd::prelude::*;

use crate::account::TypedAccountView;
use crate::errors::LifecycleError;

verus! {

/// The delegation-relevant part of a market's persisted header: the addresses
/// of its two vaults and the bump seeds used to derive each vault's
/// program-derived address. These fields never change after market creation;
/// they are read-only inputs to this core.
#[derive(Debug, Clone)]
pub struct MarketHeader {
    pub base_vault: Vec<u8>,
    pub quote_vault: Vec<u8>,
    pub base_vault_bump: u8,
    pub quote_vault_bump: u8,
}

/// Whether the supplied vault addresses equal the ones the market's own
/// header records.
pub open spec fn vaults_consistent(h: MarketHeader, base_key: Seq<u8>, quote_key: Seq<u8>) -> bool {
    base_key == h.base_vault@ && quote_key == h.quote_vault@
}

/// Re-derive the expected vault identities from the market's persisted header
/// and confirm they equal the vault accounts physically supplied. Either
/// mismatch aborts with an invalid-account-data condition before any external
/// call; this is the sole place adversarial substitution of vault accounts is
/// caught.
pub fn check_vault_consistency(
    header: &MarketHeader,
    base_vault: &TypedAccountView,
    quote_vault: &TypedAccountView,
) -> (r: Result<(), LifecycleError>)
    ensures
        r is Ok <==> vaults_consistent(*header, base_vault.record.key@, quote_vault.record.key@),
        r is Err ==> r->Err_0 == LifecycleError::InvalidOrMismatchedAccountData,
{
    if !crate::account::bytes_eq(&base_vault.record.key, &header.base_vault) {
        return Err(LifecycleError::InvalidOrMismatchedAccountData);
    }
    if !crate::account::bytes_eq(&quote_vault.record.key, &header.quote_vault) {
        return Err(LifecycleError::InvalidOrMismatchedAccountData);
    }
    Ok(())
}

} // verus!
