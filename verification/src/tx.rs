//! Whole transactions, in the order the program requires.
//!
//! Convenience, not a gate: every builder in [`crate::ix`] stays public.
//! The rule these encode is that `open_contract` and `renew_contract`
//! verify on chain that the payer's token account already names the
//! contract account as delegate, and fail rather than trust the client to
//! have done it; the approval must therefore come earlier in the same
//! transaction. Both instructions of each pair go to programs the handle
//! already names, so none of them takes a program address.

use vstd::prelude::*;

use crate::ids::Address;
use crate::ix::{
    approve_checked_view, close_contract_view, open_contract_view, renew_contract_view,
    revoke_view, Instruction,
};
use crate::pda::contract_pda;
use crate::program::{canonical_program, Program};

verus! {

impl Program {
    /// Authorize, then open; both signed by the payer.
    pub fn approve_and_open(
        &self,
        payer_token_account: &Address,
        mint: &Address,
        payer: &Address,
        site: &Address,
        limit: u64,
        decimals: u8,
    ) -> (r: Option<[Instruction; 2]>)
        ensures
            match contract_pda(*self, *site, *payer) {
                Some((contract, _)) => r matches Some(t) && t@[0]@ == approve_checked_view(
                    *self,
                    *payer_token_account,
                    *mint,
                    *payer,
                    limit,
                    decimals,
                    contract,
                ) && t@[1]@ == open_contract_view(
                    *self,
                    *site,
                    *payer,
                    *payer_token_account,
                    limit,
                    contract,
                ),
                None => r is None,
            },
    {
        let approve = self.approve_checked(payer_token_account, mint, payer, site, limit, decimals)?;
        let open = self.open_contract(site, payer, payer_token_account, limit)?;
        Some([approve, open])
    }

    /// Re-authorize at the new limit, then renew. `approve` replaces an
    /// allowance rather than adding to it, so the new limit is passed
    /// outright.
    pub fn approve_and_renew(
        &self,
        payer_token_account: &Address,
        mint: &Address,
        payer: &Address,
        site: &Address,
        new_limit: u64,
        decimals: u8,
    ) -> (r: Option<[Instruction; 2]>)
        ensures
            match contract_pda(*self, *site, *payer) {
                Some((contract, _)) => r matches Some(t) && t@[0]@ == approve_checked_view(
                    *self,
                    *payer_token_account,
                    *mint,
                    *payer,
                    new_limit,
                    decimals,
                    contract,
                ) && t@[1]@ == renew_contract_view(
                    *self,
                    *site,
                    *payer,
                    *payer_token_account,
                    new_limit,
                    contract,
                ),
                None => r is None,
            },
    {
        let approve = self.approve_checked(
            payer_token_account,
            mint,
            payer,
            site,
            new_limit,
            decimals,
        )?;
        let renew = self.renew_contract(site, payer, payer_token_account, new_limit)?;
        Some([approve, renew])
    }

    /// Close, then withdraw the approval. The leftover approval is inert
    /// once the contract account is gone, but it stays visible in the
    /// payer's wallet until revoked, and a token account has exactly one
    /// delegate.
    pub fn close_and_revoke(&self, payer_token_account: &Address, payer: &Address, site: &Address) -> (r:
        Option<[Instruction; 2]>)
        ensures
            match contract_pda(*self, *site, *payer) {
                Some((contract, _)) => r matches Some(t) && t@[0]@ == close_contract_view(
                    *self,
                    *site,
                    *payer,
                    contract,
                ) && t@[1]@ == revoke_view(*self, *payer_token_account, *payer),
                None => r is None,
            },
    {
        let close = self.close_contract(site, payer)?;
        let revoke = self.revoke(payer_token_account, payer);
        Some([close, revoke])
    }
}

/// [`Program::approve_and_open`] against the canonical deployment.
pub fn approve_and_open(
    payer_token_account: &Address,
    mint: &Address,
    payer: &Address,
    site: &Address,
    limit: u64,
    decimals: u8,
) -> (r: Option<[Instruction; 2]>)
    ensures
        match contract_pda(canonical_program(), *site, *payer) {
            Some((contract, _)) => r matches Some(t) && t@[0]@ == approve_checked_view(
                canonical_program(),
                *payer_token_account,
                *mint,
                *payer,
                limit,
                decimals,
                contract,
            ) && t@[1]@ == open_contract_view(
                canonical_program(),
                *site,
                *payer,
                *payer_token_account,
                limit,
                contract,
            ),
            None => r is None,
        },
{
    Program::canonical().approve_and_open(payer_token_account, mint, payer, site, limit, decimals)
}

/// [`Program::approve_and_renew`] against the canonical deployment.
pub fn approve_and_renew(
    payer_token_account: &Address,
    mint: &Address,
    payer: &Address,
    site: &Address,
    new_limit: u64,
    decimals: u8,
) -> (r: Option<[Instruction; 2]>)
    ensures
        match contract_pda(canonical_program(), *site, *payer) {
            Some((contract, _)) => r matches Some(t) && t@[0]@ == approve_checked_view(
                canonical_program(),
                *payer_token_account,
                *mint,
                *payer,
                new_limit,
                decimals,
                contract,
            ) && t@[1]@ == renew_contract_view(
                canonical_program(),
                *site,
                *payer,
                *payer_token_account,
                new_limit,
                contract,
            ),
            None => r is None,
        },
{
    Program::canonical().approve_and_renew(
        payer_token_account,
        mint,
        payer,
        site,
        new_limit,
        decimals,
    )
}

/// [`Program::close_and_revoke`] against the canonical deployment.
pub fn close_and_revoke(payer_token_account: &Address, payer: &Address, site: &Address) -> (r: Option<
    [Instruction; 2],
>)
    ensures
        match contract_pda(canonical_program(), *site, *payer) {
            Some((contract, _)) => r matches Some(t) && t@[0]@ == close_contract_view(
                canonical_program(),
                *site,
                *payer,
                contract,
            ) && t@[1]@ == revoke_view(canonical_program(), *payer_token_account, *payer),
            None => r is None,
        },
{
    Program::canonical().close_and_revoke(payer_token_account, payer, site)
}

} // verus!
