//! The metering program's rules, as transitions on its accounts.
//!
//! Each instruction of the on-chain program is a function here from the
//! accounts it reads to the accounts it writes, the event it emits and, for
//! a settling metering call, the transfer it asks SPL Token to make. The
//! checks Anchor makes on an instruction's accounts before it runs, where
//! they compare addresses, are here too: the site and contract accounts
//! must be at the addresses their seeds derive under the program's id, only
//! the site's authority may meter, the contract must be the payer's with
//! the site named, the mint and treasury must be the site's, the treasury a
//! site is set up with must hold its mint, and the payer's token account
//! must be the payer's and for the site's mint. The accounts are named by
//! address, and the key in the authority position is the one that signs.
//! The rest of the runtime is not modelled: that signers really signed,
//! which program owns an account and what type it holds, creating and
//! closing accounts, and the transfer itself. The transfer is an action
//! handed to whoever runs the transition, and [`commit_metering`] says what
//! the contract holds once it has reported back.
//!
//! Two amounts that are easy to confuse:
//!   * the *spending limit* caps `used` and is what the payer authorizes;
//!   * the *collection threshold* is the smallest unpaid balance worth
//!     transferring, and exists only to amortize transaction cost.
//!
//! What every instruction keeps is [`contract_wf`]: `paid <= used <= limit`,
//! the limit at or above the site minimum, and an unpaid residue that is
//! either nothing or below the threshold.

use vstd::prelude::*;

use crate::error::PayError;
use crate::ids::Address;
use crate::pda::{
    contract_address_with_bump, contract_seeds, contract_seeds_with_bump, created_program_address,
    program_address, site_seeds,
};
use crate::program::Program;
use crate::state::{saturating_sub, Contract, Site, TokenAccount};

verus! {

/// Emitted by every successful metering call.
#[derive(Debug, Clone, Copy, PartialEq, Eq)]
pub struct Metered {
    pub contract: Address,
    pub page_views: u32,
    pub used: u64,
    pub paid: u64,
    /// What moved to the treasury in this call; zero when nothing settled.
    pub transferred: u64,
}

/// Emitted by a renewal.
#[derive(Debug, Clone, Copy, PartialEq, Eq)]
pub struct Renewed {
    pub contract: Address,
    pub limit: u64,
    /// Usage that was accrued but never collected, now owed against the new
    /// limit.
    pub carried: u64,
}

/// Emitted when a contract is closed.
#[derive(Debug, Clone, Copy, PartialEq, Eq)]
pub struct Closed {
    pub contract: Address,
    /// The residue left uncollected.
    pub forgiven: u64,
}

/// A metering call the program accepted, before its transfer has run.
#[derive(Debug, Clone, Copy, PartialEq, Eq)]
pub struct Metering {
    /// The contract as the call leaves it, if the transfer goes through.
    pub contract: Contract,
    /// The amount the contract PDA moves from the payer's token account to
    /// the treasury, when the call settles.
    pub transfer: Option<u64>,
    /// The event the call emits.
    pub event: Metered,
}

/// A constraint an instruction's account list puts on the accounts it
/// names. Anchor checks these before the instruction's own code runs.
#[derive(Debug, Clone, Copy, PartialEq, Eq)]
pub enum AccountConstraint {
    /// The site account must be at the address derived from its seeds,
    /// `b"site"` and its authority (`seeds`, `bump`).
    SiteAddress,
    /// The contract account must be at the address derived from its seeds,
    /// `b"contract"`, its site and its payer, with its bump (`seeds`,
    /// `bump`).
    ContractAddress,
    /// The treasury a site is set up with must hold the site's mint
    /// (`constraint = treasury.mint == mint.key()`).
    TreasuryMint,
    /// The key in the authority position, which signs a metering call, must
    /// be the site's authority (`has_one = authority`).
    SiteAuthority,
    /// The mint named must be the site's (`has_one = mint`).
    SiteMint,
    /// The contract must belong to the site named (`has_one = site`).
    ContractSite,
    /// The contract must belong to the payer named (`has_one = payer`).
    ContractPayer,
    /// The payer's token account must be owned by the payer.
    TokenAccountOwner,
    /// The payer's token account must hold the site's mint.
    TokenAccountMint,
    /// The treasury named must be the site's (`address = site.treasury`).
    Treasury,
}

/// Why the program refuses an instruction.
#[derive(Debug, Clone, Copy, PartialEq, Eq)]
pub enum Refusal {
    /// An account the instruction names fails a constraint of its account
    /// list.
    Account(AccountConstraint),
    /// The instruction's own checks refused it.
    Program(PayError),
}

/// The accounts a metering call names, by address: the site, the key in
/// the authority position (the call's signer), the payer, the contract,
/// the treasury and the mint.
#[derive(Debug, Clone, Copy, PartialEq, Eq)]
pub struct MeterKeys {
    pub site: Address,
    pub authority: Address,
    pub payer: Address,
    pub contract: Address,
    pub treasury: Address,
    pub mint: Address,
}

/// Which constraint, if any, a token account fails as the payer's token
/// account for `payer` at site `s`: it must be the payer's, and for the
/// site's mint. Any such account will do; nothing ties a contract to one.
pub open spec fn token_account_refusal(s: Site, payer: Address, account: TokenAccount) -> Option<
    AccountConstraint,
> {
    if account.owner@ != payer@ {
        Some(AccountConstraint::TokenAccountOwner)
    } else if account.mint@ != s.mint@ {
        Some(AccountConstraint::TokenAccountMint)
    } else {
        None
    }
}

/// Which constraint, if any, the contract `c` fails as the contract of
/// `payer` with the site at `site_key`.
pub open spec fn contract_refusal(c: Contract, site_key: Address, payer: Address) -> Option<
    AccountConstraint,
> {
    if c.site@ != site_key@ {
        Some(AccountConstraint::ContractSite)
    } else if c.payer@ != payer@ {
        Some(AccountConstraint::ContractPayer)
    } else {
        None
    }
}

/// Whether `contract_key` is where the program at `program_id` keeps the
/// contract of `payer` with the site at `site_key`, at the bump the contract
/// records.
pub open spec fn contract_at(
    program_id: Address,
    site_key: Address,
    payer: Address,
    c: Contract,
    contract_key: Address,
) -> bool {
    created_program_address(contract_seeds_with_bump(site_key, payer, c.bump), program_id@) == Some(
        contract_key@,
    )
}

/// Which constraint, if any, the accounts `initialize_site` names fail: the
/// site account must be at the address its seeds derive, and the treasury
/// must hold the mint named.
pub open spec fn site_account_refusal(
    program_id: Address,
    authority: Address,
    site_key: Address,
    mint: Address,
    treasury: TokenAccount,
) -> Option<AccountConstraint> {
    if !(program_address(site_seeds(authority), program_id@) matches Some((k, _)) && k
        == site_key@) {
        Some(AccountConstraint::SiteAddress)
    } else if treasury.mint@ != mint@ {
        Some(AccountConstraint::TreasuryMint)
    } else {
        None
    }
}

/// Which constraint, if any, the accounts `open_contract` names fail: the
/// contract account must be at the address its seeds derive, and the token
/// account the payer's for the site's mint.
pub open spec fn open_account_refusal(
    program_id: Address,
    s: Site,
    site_key: Address,
    payer: Address,
    contract_key: Address,
    account: TokenAccount,
) -> Option<AccountConstraint> {
    if !(program_address(contract_seeds(site_key, payer), program_id@) matches Some((k, _)) && k
        == contract_key@) {
        Some(AccountConstraint::ContractAddress)
    } else {
        token_account_refusal(s, payer, account)
    }
}

/// Which constraint, if any, the accounts of a renewal fail: the contract
/// must be at its address, the payer's with the site named, and the token
/// account the payer's for the site's mint.
pub open spec fn renew_account_refusal(
    program_id: Address,
    s: Site,
    site_key: Address,
    payer: Address,
    c: Contract,
    contract_key: Address,
    account: TokenAccount,
) -> Option<AccountConstraint> {
    if !contract_at(program_id, site_key, payer, c, contract_key) {
        Some(AccountConstraint::ContractAddress)
    } else if let Some(r) = contract_refusal(c, site_key, payer) {
        Some(r)
    } else {
        token_account_refusal(s, payer, account)
    }
}

/// Which constraint, if any, the accounts of a close fail: the contract
/// must be at its address, and the payer's with the site named.
pub open spec fn close_account_refusal(
    program_id: Address,
    site_key: Address,
    payer: Address,
    c: Contract,
    contract_key: Address,
) -> Option<AccountConstraint> {
    if !contract_at(program_id, site_key, payer, c, contract_key) {
        Some(AccountConstraint::ContractAddress)
    } else {
        contract_refusal(c, site_key, payer)
    }
}

/// Which constraint, if any, the accounts of a metering call fail, in the
/// order the instruction lists them: the site's authority and mint, the
/// contract's address, site and payer, the payer's token account, the
/// treasury.
pub open spec fn meter_account_refusal(
    program_id: Address,
    s: Site,
    c: Contract,
    k: MeterKeys,
    account: TokenAccount,
) -> Option<AccountConstraint> {
    if s.authority@ != k.authority@ {
        Some(AccountConstraint::SiteAuthority)
    } else if s.mint@ != k.mint@ {
        Some(AccountConstraint::SiteMint)
    } else if !contract_at(program_id, k.site, k.payer, c, k.contract) {
        Some(AccountConstraint::ContractAddress)
    } else if let Some(r) = contract_refusal(c, k.site, k.payer) {
        Some(r)
    } else if let Some(r) = token_account_refusal(s, k.payer, account) {
        Some(r)
    } else if s.treasury@ != k.treasury@ {
        Some(AccountConstraint::Treasury)
    } else {
        None
    }
}

/// A site whose pricing the program accepted: a positive page price, and a
/// minimum limit above the collection threshold, so that the first settle
/// always fits within the smallest limit a payer can authorize.
pub open spec fn site_wf(s: Site) -> bool {
    &&& s.page_price > 0
    &&& s.min_limit > s.collection_threshold
}

/// The unpaid residue is nothing, or too small to be worth collecting.
pub open spec fn residue_below_threshold(s: Site, c: Contract) -> bool {
    c.used == c.paid || c.used - c.paid < s.collection_threshold
}

/// What every instruction keeps of a contract with the site `s`.
pub open spec fn contract_wf(s: Site, c: Contract) -> bool {
    &&& c.paid <= c.used <= c.limit
    &&& c.limit >= s.min_limit
    &&& residue_below_threshold(s, c)
}

/// What `page_views` cost at the site's price, if that fits in a `u64`.
pub open spec fn charge_of(s: Site, page_views: u32) -> Option<u64> {
    if s.page_price * page_views <= u64::MAX {
        Some((s.page_price * page_views) as u64)
    } else {
        None
    }
}

/// Why a token account does not let `expected` move `needed` on its
/// owner's behalf, if it does not.
pub open spec fn delegate_refusal(account: TokenAccount, expected: Address, needed: u64) -> Option<
    PayError,
> {
    match account.delegate {
        None => Some(PayError::DelegateNotSet),
        Some(d) => if d@ != expected@ {
            Some(PayError::DelegateMismatch)
        } else if account.delegated_amount < needed {
            Some(PayError::DelegateAllowanceTooLow)
        } else {
            None
        },
    }
}

/// The site `initialize_site` writes at `site_key`, or why it refuses. Its
/// bump is the one the site's address was derived with.
pub open spec fn initialized_site(
    program_id: Address,
    authority: Address,
    site_key: Address,
    mint: Address,
    treasury_key: Address,
    treasury: TokenAccount,
    page_price: u64,
    collection_threshold: u64,
    min_limit: u64,
) -> Result<Site, Refusal> {
    if let Some(t) = site_account_refusal(program_id, authority, site_key, mint, treasury) {
        Err(Refusal::Account(t))
    } else if page_price == 0 {
        Err(Refusal::Program(PayError::ZeroPagePrice))
    } else if min_limit <= collection_threshold {
        Err(Refusal::Program(PayError::MinimumBelowThreshold))
    } else {
        Ok(
            Site {
                authority,
                mint,
                treasury: treasury_key,
                page_price,
                collection_threshold,
                min_limit,
                bump: program_address(site_seeds(authority), program_id@)->Some_0.1,
            },
        )
    }
}

/// The contract `open_contract` writes, or why it refuses. Its bump is the
/// one the contract's address was derived with.
pub open spec fn opened_contract(
    program_id: Address,
    site: Site,
    site_key: Address,
    payer: Address,
    contract_key: Address,
    account: TokenAccount,
    limit: u64,
) -> Result<Contract, Refusal> {
    if let Some(t) = open_account_refusal(program_id, site, site_key, payer, contract_key, account) {
        Err(Refusal::Account(t))
    } else if limit < site.min_limit {
        Err(Refusal::Program(PayError::LimitBelowMinimum))
    } else {
        match delegate_refusal(account, contract_key, limit) {
            Some(e) => Err(Refusal::Program(e)),
            None => Ok(
                Contract {
                    site: site_key,
                    payer,
                    limit,
                    used: 0,
                    paid: 0,
                    bump: program_address(contract_seeds(site_key, payer), program_id@)->Some_0.1,
                },
            ),
        }
    }
}

/// What a metering call of `page_views`, naming the accounts `k`, does to
/// `c`, or why it refuses. The accounts are checked first.
///
/// The charge is added to `used`; usage may not pass the limit. If that
/// carries the unpaid balance to the collection threshold, the whole unpaid
/// balance is transferred and `paid` catches up with `used`.
pub open spec fn metered(
    program_id: Address,
    s: Site,
    c: Contract,
    k: MeterKeys,
    account: TokenAccount,
    page_views: u32,
) -> Result<Metering, Refusal> {
    if let Some(t) = meter_account_refusal(program_id, s, c, k, account) {
        Err(Refusal::Account(t))
    } else {
        match charge_of(s, page_views) {
            None => Err(Refusal::Program(PayError::MathOverflow)),
            Some(charge) => {
                let new_used = c.used + charge;
                if new_used > u64::MAX {
                    Err(Refusal::Program(PayError::MathOverflow))
                } else if new_used > c.limit {
                    Err(Refusal::Program(PayError::LimitReached))
                } else if new_used < c.paid {
                    Err(Refusal::Program(PayError::MathOverflow))
                } else {
                    let unpaid = (new_used - c.paid) as u64;
                    let settles = unpaid >= s.collection_threshold;
                    let paid = if settles {
                        new_used as u64
                    } else {
                        c.paid
                    };
                    Ok(
                        Metering {
                            contract: Contract { used: new_used as u64, paid, ..c },
                            transfer: if settles {
                                Some(unpaid)
                            } else {
                                None
                            },
                            event: Metered {
                                contract: k.contract,
                                page_views,
                                used: new_used as u64,
                                paid,
                                transferred: if settles {
                                    unpaid
                                } else {
                                    0
                                },
                            },
                        },
                    )
                }
            },
        }
    }
}

/// What renewing `c` at `new_limit` writes, or why it refuses. The
/// contract must be the payer's with the site named, and the token account
/// the payer's for the site's mint.
///
/// What was paid is forgiven from the counter: the contract starts the new
/// period owing only the residue that was too small to collect.
pub open spec fn renewed(
    program_id: Address,
    s: Site,
    site_key: Address,
    payer: Address,
    c: Contract,
    contract_key: Address,
    account: TokenAccount,
    new_limit: u64,
) -> Result<(Contract, Renewed), Refusal> {
    if let Some(t) = renew_account_refusal(program_id, s, site_key, payer, c, contract_key, account) {
        Err(Refusal::Account(t))
    } else if new_limit < s.min_limit {
        Err(Refusal::Program(PayError::LimitBelowMinimum))
    } else if c.used < c.paid {
        Err(Refusal::Program(PayError::MathOverflow))
    } else if new_limit < c.used - c.paid {
        Err(Refusal::Program(PayError::LimitBelowUsage))
    } else {
        match delegate_refusal(account, contract_key, new_limit) {
            Some(e) => Err(Refusal::Program(e)),
            None => {
                let carried = (c.used - c.paid) as u64;
                Ok(
                    (
                        Contract { used: carried, paid: 0, limit: new_limit, ..c },
                        Renewed { contract: contract_key, limit: new_limit, carried },
                    ),
                )
            },
        }
    }
}

/// What closing `c` emits, or why it refuses: the contract must be the
/// payer's with the site named.
pub open spec fn closed(
    program_id: Address,
    site_key: Address,
    payer: Address,
    c: Contract,
    contract_key: Address,
) -> Result<Closed, Refusal> {
    match close_account_refusal(program_id, site_key, payer, c, contract_key) {
        Some(t) => Err(Refusal::Account(t)),
        None => Ok(Closed { contract: contract_key, forgiven: saturating_sub(c.used, c.paid) }),
    }
}

/// The payer's token account must name `expected` as delegate with at
/// least `needed` still allowed. This is what makes an absent payer
/// chargeable.
fn require_delegate(account: &TokenAccount, expected: &Address, needed: u64) -> (r: Result<
    (),
    PayError,
>)
    ensures
        match delegate_refusal(*account, *expected, needed) {
            Some(e) => r == Err::<(), PayError>(e),
            None => r is Ok,
        },
{
    let delegate = match account.delegate {
        Some(d) => d,
        None => return Err(PayError::DelegateNotSet),
    };
    if !delegate.same_as(expected) {
        return Err(PayError::DelegateMismatch);
    }
    if account.delegated_amount < needed {
        return Err(PayError::DelegateAllowanceTooLow);
    }
    Ok(())
}

/// The payer's token account must be the payer's, and for the site's mint.
fn check_token_account(site: &Site, payer: &Address, account: &TokenAccount) -> (r: Result<
    (),
    Refusal,
>)
    ensures
        match token_account_refusal(*site, *payer, *account) {
            Some(t) => r == Err::<(), Refusal>(Refusal::Account(t)),
            None => r is Ok,
        },
{
    if !account.owner.same_as(payer) {
        return Err(Refusal::Account(AccountConstraint::TokenAccountOwner));
    }
    if !account.mint.same_as(&site.mint) {
        return Err(Refusal::Account(AccountConstraint::TokenAccountMint));
    }
    Ok(())
}

/// The contract must be the payer's with the site named.
fn check_contract(contract: &Contract, site_key: &Address, payer: &Address) -> (r: Result<
    (),
    Refusal,
>)
    ensures
        match contract_refusal(*contract, *site_key, *payer) {
            Some(t) => r == Err::<(), Refusal>(Refusal::Account(t)),
            None => r is Ok,
        },
{
    if !contract.site.same_as(site_key) {
        return Err(Refusal::Account(AccountConstraint::ContractSite));
    }
    if !contract.payer.same_as(payer) {
        return Err(Refusal::Account(AccountConstraint::ContractPayer));
    }
    Ok(())
}

/// The contract account must be where the program keeps the contract of
/// `payer` with the site at `site_key`, at the bump the contract records.
fn check_contract_address(
    program_id: &Address,
    site_key: &Address,
    payer: &Address,
    contract: &Contract,
    contract_key: &Address,
) -> (r: Result<(), Refusal>)
    ensures
        contract_at(*program_id, *site_key, *payer, *contract, *contract_key) ==> r is Ok,
        !contract_at(*program_id, *site_key, *payer, *contract, *contract_key) ==> r == Err::<
            (),
            Refusal,
        >(Refusal::Account(AccountConstraint::ContractAddress)),
{
    match contract_address_with_bump(program_id, site_key, payer, contract.bump) {
        Some(a) => {
            if a.same_as(contract_key) {
                Ok(())
            } else {
                Err(Refusal::Account(AccountConstraint::ContractAddress))
            }
        },
        None => Err(Refusal::Account(AccountConstraint::ContractAddress)),
    }
}

/// The accounts a metering call names must be the site's authority (which
/// signs), the site's mint, the contract of the payer with the site, a
/// token account of the payer's for the site's mint, and the site's
/// treasury.
fn check_meter_accounts(
    program_id: &Address,
    site: &Site,
    contract: &Contract,
    keys: &MeterKeys,
    account: &TokenAccount,
) -> (r: Result<(), Refusal>)
    ensures
        match meter_account_refusal(*program_id, *site, *contract, *keys, *account) {
            Some(t) => r == Err::<(), Refusal>(Refusal::Account(t)),
            None => r is Ok,
        },
{
    if !site.authority.same_as(&keys.authority) {
        return Err(Refusal::Account(AccountConstraint::SiteAuthority));
    }
    if !site.mint.same_as(&keys.mint) {
        return Err(Refusal::Account(AccountConstraint::SiteMint));
    }
    check_contract_address(program_id, &keys.site, &keys.payer, contract, &keys.contract)?;
    check_contract(contract, &keys.site, &keys.payer)?;
    check_token_account(site, &keys.payer, account)?;
    if !site.treasury.same_as(&keys.treasury) {
        return Err(Refusal::Account(AccountConstraint::Treasury));
    }
    Ok(())
}

/// Stand up a site's pricing, at the site account of `authority` under the
/// program at `program_id`, with a treasury that holds the site's mint.
pub fn initialize_site(
    program_id: &Address,
    authority: &Address,
    site_key: &Address,
    mint: &Address,
    treasury_key: &Address,
    treasury: &TokenAccount,
    page_price: u64,
    collection_threshold: u64,
    min_limit: u64,
) -> (r: Result<Site, Refusal>)
    ensures
        r == initialized_site(
            *program_id,
            *authority,
            *site_key,
            *mint,
            *treasury_key,
            *treasury,
            page_price,
            collection_threshold,
            min_limit,
        ),
        r matches Ok(s) ==> site_wf(s),
{
    let bump = match Program::new(*program_id).site_address(authority) {
        Some((k, b)) => {
            if !k.same_as(site_key) {
                return Err(Refusal::Account(AccountConstraint::SiteAddress));
            }
            b
        },
        None => return Err(Refusal::Account(AccountConstraint::SiteAddress)),
    };
    if !treasury.mint.same_as(mint) {
        return Err(Refusal::Account(AccountConstraint::TreasuryMint));
    }
    if page_price == 0 {
        return Err(Refusal::Program(PayError::ZeroPagePrice));
    }
    if min_limit <= collection_threshold {
        return Err(Refusal::Program(PayError::MinimumBelowThreshold));
    }
    Ok(
        Site {
            authority: *authority,
            mint: *mint,
            treasury: *treasury_key,
            page_price,
            collection_threshold,
            min_limit,
            bump,
        },
    )
}

/// Create a payer's contract with a site, at `limit`.
///
/// The contract account must be at the address derived from the site and
/// the payer under the program at `program_id`, and the payer's token
/// account must already name it as delegate for at least `limit`: the
/// approval comes earlier in the same transaction, and is checked here
/// rather than trusted. A contract opened here is at the address later
/// calls check it against.
pub fn open_contract(
    program_id: &Address,
    site: &Site,
    site_key: &Address,
    payer: &Address,
    contract_key: &Address,
    payer_token_account: &TokenAccount,
    limit: u64,
) -> (r: Result<Contract, Refusal>)
    ensures
        r == opened_contract(
            *program_id,
            *site,
            *site_key,
            *payer,
            *contract_key,
            *payer_token_account,
            limit,
        ),
        r matches Ok(c) ==> contract_wf(*site, c),
        r matches Ok(c) ==> contract_at(*program_id, *site_key, *payer, c, *contract_key),
{
    let bump = match Program::new(*program_id).contract_address(site_key, payer) {
        Some((k, b)) => {
            if !k.same_as(contract_key) {
                return Err(Refusal::Account(AccountConstraint::ContractAddress));
            }
            b
        },
        None => return Err(Refusal::Account(AccountConstraint::ContractAddress)),
    };
    check_token_account(site, payer, payer_token_account)?;
    if limit < site.min_limit {
        return Err(Refusal::Program(PayError::LimitBelowMinimum));
    }
    if let Err(e) = require_delegate(payer_token_account, contract_key, limit) {
        return Err(Refusal::Program(e));
    }
    Ok(Contract { site: *site_key, payer: *payer, limit, used: 0, paid: 0, bump })
}

/// Bump usage for `page_views` and, if that carries the unpaid balance to
/// the collection threshold, settle the whole unpaid balance in the same
/// call. Signed by the site's authority alone: a call whose signer is not
/// the site's authority is refused before anything else is looked at.
///
/// Whatever the contract was, an accepted call leaves `paid <= used <=
/// limit` with a residue below the threshold; a settling call leaves no
/// residue at all.
pub fn meter_and_settle(
    program_id: &Address,
    site: &Site,
    contract: &Contract,
    keys: &MeterKeys,
    payer_token_account: &TokenAccount,
    page_views: u32,
) -> (r: Result<Metering, Refusal>)
    ensures
        r == metered(*program_id, *site, *contract, *keys, *payer_token_account, page_views),
        r matches Ok(m) ==> {
            &&& m.contract.paid <= m.contract.used <= m.contract.limit
            &&& residue_below_threshold(*site, m.contract)
            &&& m.transfer is Some ==> m.contract.paid == m.contract.used
            &&& m.contract.limit == contract.limit
        },
        contract_wf(*site, *contract) ==> (r matches Ok(m) ==> contract_wf(*site, m.contract)),
{
    check_meter_accounts(program_id, site, contract, keys, payer_token_account)?;
    let charge = match site.page_price.checked_mul(page_views as u64) {
        Some(c) => c,
        None => return Err(Refusal::Program(PayError::MathOverflow)),
    };
    let new_used = match contract.used.checked_add(charge) {
        Some(u) => u,
        None => return Err(Refusal::Program(PayError::MathOverflow)),
    };
    if new_used > contract.limit {
        return Err(Refusal::Program(PayError::LimitReached));
    }
    let unpaid = match new_used.checked_sub(contract.paid) {
        Some(u) => u,
        None => return Err(Refusal::Program(PayError::MathOverflow)),
    };
    let mut after = *contract;
    let mut transfer: Option<u64> = None;
    let mut transferred: u64 = 0;
    if unpaid >= site.collection_threshold {
        transfer = Some(unpaid);
        transferred = unpaid;
        after.paid = new_used;
    }
    after.used = new_used;
    Ok(
        Metering {
            contract: after,
            transfer,
            event: Metered {
                contract: keys.contract,
                page_views,
                used: new_used,
                paid: after.paid,
                transferred,
            },
        },
    )
}

/// The contract once a metering call has run its transfer: what the call
/// planned if there was nothing to transfer or the transfer went through,
/// and the contract as it was if the transfer failed, since the usage bump
/// and the transfer succeed or fail together. The event is emitted only by
/// a call that succeeded.
pub fn commit_metering(before: &Contract, planned: &Metering, transfer_succeeded: bool) -> (r: (
    Contract,
    Option<Metered>,
))
    ensures
        planned.transfer is None || transfer_succeeded ==> r == (planned.contract, Some(
            planned.event,
        )),
        planned.transfer is Some && !transfer_succeeded ==> r == (*before, None::<Metered>),
{
    if planned.transfer.is_none() || transfer_succeeded {
        (planned.contract, Some(planned.event))
    } else {
        (*before, None)
    }
}

/// Renew with a fresh limit.
///
/// The payer's token account must already delegate the whole new limit to
/// the contract: nothing is paid against it yet.
pub fn renew_contract(
    program_id: &Address,
    site: &Site,
    site_key: &Address,
    payer: &Address,
    contract: &Contract,
    contract_key: &Address,
    payer_token_account: &TokenAccount,
    new_limit: u64,
) -> (r: Result<(Contract, Renewed), Refusal>)
    ensures
        r == renewed(
            *program_id,
            *site,
            *site_key,
            *payer,
            *contract,
            *contract_key,
            *payer_token_account,
            new_limit,
        ),
        contract_wf(*site, *contract) ==> (r matches Ok((c, _)) ==> contract_wf(*site, c)),
        r is Ok ==> (payer_token_account.delegate matches Some(d) && d@ == contract_key@)
            && payer_token_account.delegated_amount >= new_limit,
{
    check_contract_address(program_id, site_key, payer, contract, contract_key)?;
    check_contract(contract, site_key, payer)?;
    check_token_account(site, payer, payer_token_account)?;
    if new_limit < site.min_limit {
        return Err(Refusal::Program(PayError::LimitBelowMinimum));
    }
    let carried = match contract.used.checked_sub(contract.paid) {
        Some(c) => c,
        None => return Err(Refusal::Program(PayError::MathOverflow)),
    };
    if new_limit < carried {
        return Err(Refusal::Program(PayError::LimitBelowUsage));
    }
    if let Err(e) = require_delegate(payer_token_account, contract_key, new_limit) {
        return Err(Refusal::Program(e));
    }
    let mut after = *contract;
    after.used = carried;
    after.paid = 0;
    after.limit = new_limit;
    Ok((after, Renewed { contract: *contract_key, limit: new_limit, carried }))
}

/// Delete the payer's contract with the site. The residue is below the
/// collection threshold by construction, so it is forgiven rather than
/// transferred.
pub fn close_contract(
    program_id: &Address,
    site_key: &Address,
    payer: &Address,
    contract: &Contract,
    contract_key: &Address,
) -> (r: Result<Closed, Refusal>)
    ensures
        r == closed(*program_id, *site_key, *payer, *contract, *contract_key),
        r matches Ok(e) ==> contract.paid <= contract.used ==> e.forgiven + contract.paid
            == contract.used,
        r matches Ok(e) ==> contract.used <= contract.paid ==> e.forgiven == 0,
{
    check_contract_address(program_id, site_key, payer, contract, contract_key)?;
    check_contract(contract, site_key, payer)?;
    Ok(Closed { contract: *contract_key, forgiven: contract.unpaid() })
}

/// Nothing the program forgives at close was ever worth collecting: on a
/// well-formed contract the residue is below the collection threshold, or
/// there is none.
pub proof fn lemma_closing_forgives_less_than_a_collection(s: Site, c: Contract)
    requires
        contract_wf(s, c),
    ensures
        saturating_sub(c.used, c.paid) == 0 || saturating_sub(c.used, c.paid)
            < s.collection_threshold,
{
}

/// Every state the instructions can reach is well formed: a contract that
/// `open_contract` wrote, and then any sequence of accepted metering calls
/// (whether or not their transfers went through) and renewals.
pub proof fn lemma_metering_and_renewal_keep_the_contract_invariant(
    program_id: Address,
    s: Site,
    c: Contract,
    k: MeterKeys,
    site_key: Address,
    payer: Address,
    contract_key: Address,
    page_views: u32,
    account: TokenAccount,
    new_limit: u64,
    transfer_succeeded: bool,
)
    requires
        contract_wf(s, c),
    ensures
        metered(program_id, s, c, k, account, page_views) matches Ok(m) ==> contract_wf(
            s,
            m.contract,
        ),
        metered(program_id, s, c, k, account, page_views) matches Ok(m) ==> contract_wf(
            s,
            if m.transfer is None || transfer_succeeded {
                m.contract
            } else {
                c
            },
        ),
        renewed(program_id, s, site_key, payer, c, contract_key, account, new_limit) matches Ok(
            (r, _),
        ) ==> contract_wf(s, r),
{
}

/// A contract stays where later calls look for it: an accepted metering
/// call, whether or not its transfer went through, and an accepted renewal
/// leave the contract at the address the program checks it against.
pub proof fn lemma_the_contract_stays_at_its_address(
    program_id: Address,
    s: Site,
    c: Contract,
    k: MeterKeys,
    site_key: Address,
    payer: Address,
    contract_key: Address,
    page_views: u32,
    account: TokenAccount,
    new_limit: u64,
    transfer_succeeded: bool,
)
    ensures
        metered(program_id, s, c, k, account, page_views) matches Ok(m) ==> contract_at(
            program_id,
            k.site,
            k.payer,
            if m.transfer is None || transfer_succeeded {
                m.contract
            } else {
                c
            },
            k.contract,
        ),
        renewed(program_id, s, site_key, payer, c, contract_key, account, new_limit) matches Ok(
            (r, _),
        ) ==> contract_at(program_id, site_key, payer, r, contract_key),
{
}

/// Only the site's authority may meter: a metering call whose signer, the
/// key in the authority position, is not the site's authority is refused
/// for that, whatever else it names, and so changes nothing and moves no
/// money.
pub proof fn lemma_only_the_site_authority_may_meter(
    program_id: Address,
    s: Site,
    c: Contract,
    k: MeterKeys,
    account: TokenAccount,
    page_views: u32,
)
    requires
        k.authority@ != s.authority@,
    ensures
        metered(program_id, s, c, k, account, page_views) == Err::<Metering, Refusal>(
            Refusal::Account(AccountConstraint::SiteAuthority),
        ),
{
}

/// An instruction the program accepts names the right accounts: a site is
/// set up at the address its authority derives, with a treasury of its
/// mint; a contract is opened at the address its site and payer derive; a
/// metering call is signed by the site's authority and names the site's
/// mint and treasury, the payer's contract with that site at its address,
/// and a token account of the payer's for the site's mint; a renewal and a
/// close name the contract at its address, with its own site and payer.
pub proof fn lemma_accepted_calls_name_the_right_accounts(
    program_id: Address,
    s: Site,
    c: Contract,
    k: MeterKeys,
    authority: Address,
    site_key: Address,
    mint: Address,
    treasury_key: Address,
    treasury: TokenAccount,
    payer: Address,
    contract_key: Address,
    account: TokenAccount,
    page_price: u64,
    collection_threshold: u64,
    min_limit: u64,
    page_views: u32,
    limit: u64,
)
    ensures
        initialized_site(
            program_id,
            authority,
            site_key,
            mint,
            treasury_key,
            treasury,
            page_price,
            collection_threshold,
            min_limit,
        ) matches Ok(site) ==> {
            &&& program_address(site_seeds(authority), program_id@) == Some(
                (site_key@, site.bump),
            )
            &&& treasury.mint@ == mint@
        },
        opened_contract(program_id, s, site_key, payer, contract_key, account, limit) matches Ok(o)
            ==> {
            &&& program_address(contract_seeds(site_key, payer), program_id@) == Some(
                (contract_key@, o.bump),
            )
            &&& account.owner@ == payer@
            &&& account.mint@ == s.mint@
        },
        metered(program_id, s, c, k, account, page_views) is Ok ==> {
            &&& k.authority@ == s.authority@
            &&& k.mint@ == s.mint@
            &&& k.treasury@ == s.treasury@
            &&& contract_at(program_id, k.site, k.payer, c, k.contract)
            &&& c.site@ == k.site@
            &&& c.payer@ == k.payer@
            &&& account.owner@ == k.payer@
            &&& account.mint@ == s.mint@
        },
        renewed(program_id, s, site_key, payer, c, contract_key, account, limit) is Ok ==> {
            &&& contract_at(program_id, site_key, payer, c, contract_key)
            &&& c.site@ == site_key@
            &&& c.payer@ == payer@
            &&& account.owner@ == payer@
            &&& account.mint@ == s.mint@
        },
        closed(program_id, site_key, payer, c, contract_key) is Ok ==> {
            &&& contract_at(program_id, site_key, payer, c, contract_key)
            &&& c.site@ == site_key@
            &&& c.payer@ == payer@
        },
{
}

/// The approval must cover the whole limit: an accepted opening or renewal
/// means the payer's token account names the contract as its delegate with
/// at least the whole limit still allowed, since nothing is paid against a
/// new limit yet; a renewal is checked against the new limit itself, not
/// against what the carried usage leaves of it. With the right delegate, an
/// allowance short of the limit is refused as `DelegateAllowanceTooLow`
/// once the accounts and the limit pass.
pub proof fn lemma_the_approval_covers_the_whole_limit(
    program_id: Address,
    s: Site,
    site_key: Address,
    payer: Address,
    c: Contract,
    contract_key: Address,
    account: TokenAccount,
    limit: u64,
)
    ensures
        opened_contract(program_id, s, site_key, payer, contract_key, account, limit) is Ok ==> {
            &&& account.delegate matches Some(d) && d@ == contract_key@
            &&& account.delegated_amount >= limit
        },
        renewed(program_id, s, site_key, payer, c, contract_key, account, limit) is Ok ==> {
            &&& account.delegate matches Some(d) && d@ == contract_key@
            &&& account.delegated_amount >= limit
        },
        (account.delegate matches Some(d) && d@ == contract_key@) && account.delegated_amount
            < limit && renew_account_refusal(program_id, s, site_key, payer, c, contract_key, account)
            is None && limit >= s.min_limit && c.paid <= c.used && limit >= c.used - c.paid
            ==> renewed(program_id, s, site_key, payer, c, contract_key, account, limit) == Err::<
            (Contract, Renewed),
            Refusal,
        >(Refusal::Program(PayError::DelegateAllowanceTooLow)),
{
}

/// Closing forgives exactly what was accrued and never collected: the
/// event names the contract closed and forgives `used - paid`, nothing of
/// what was already paid, and nothing at all on a contract with nothing
/// unpaid. On a well-formed contract that is less than one collection.
pub proof fn lemma_closing_forgives_the_unpaid_residue(
    program_id: Address,
    s: Site,
    site_key: Address,
    payer: Address,
    c: Contract,
    contract_key: Address,
)
    ensures
        closed(program_id, site_key, payer, c, contract_key) matches Ok(e) ==> {
            &&& e.contract == contract_key
            &&& c.paid <= c.used ==> e.forgiven + c.paid == c.used
            &&& c.used <= c.paid ==> e.forgiven == 0
            &&& contract_wf(s, c) ==> (e.forgiven == 0 || e.forgiven < s.collection_threshold)
        },
{
}

/// A contract is not bound to one token account: the program decides a
/// metering call, and a renewal, the same way for any two token accounts
/// of the payer's for the site's mint that delegate the same allowance to
/// the contract, and settles from whichever is named.
pub proof fn lemma_any_token_account_of_the_payer_will_do(
    program_id: Address,
    s: Site,
    c: Contract,
    k: MeterKeys,
    a: TokenAccount,
    b: TokenAccount,
    page_views: u32,
    new_limit: u64,
)
    requires
        token_account_refusal(s, k.payer, a) is None,
        token_account_refusal(s, k.payer, b) is None,
        a.delegate == b.delegate,
        a.delegated_amount == b.delegated_amount,
    ensures
        metered(program_id, s, c, k, a, page_views) == metered(program_id, s, c, k, b, page_views),
        renewed(program_id, s, k.site, k.payer, c, k.contract, a, new_limit) == renewed(
            program_id,
            s,
            k.site,
            k.payer,
            c,
            k.contract,
            b,
            new_limit,
        ),
{
}

/// Usage and payment only move forward between renewals: an accepted
/// metering call never lowers `used` or `paid`, never changes the limit,
/// the site, the payer or the bump, and transfers exactly the gap it
/// closes.
pub proof fn lemma_metering_moves_forward(
    program_id: Address,
    s: Site,
    c: Contract,
    k: MeterKeys,
    account: TokenAccount,
    page_views: u32,
)
    ensures
        metered(program_id, s, c, k, account, page_views) matches Ok(m) ==> {
            &&& m.contract.used >= c.used
            &&& m.contract.paid >= c.paid
            &&& m.contract.limit == c.limit
            &&& m.contract.site == c.site
            &&& m.contract.payer == c.payer
            &&& m.contract.bump == c.bump
            &&& match m.transfer {
                Some(t) => t == m.contract.paid - c.paid && m.event.transferred == t,
                None => m.contract.paid == c.paid && m.event.transferred == 0,
            }
        },
{
}

} // verus!
