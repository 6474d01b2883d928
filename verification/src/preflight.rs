//! Will this succeed, and what does the payer still have room for?
//!
//! Every function here answers, before a transaction fee is spent, one
//! question the program settles on chain. They report facts, not
//! instructions: nothing here decides what to render, redirect to, or
//! block. The laws at the end of this file hold each answer to the
//! program's own rules in [`crate::metering`].

use vstd::prelude::*;

use crate::error::PayError;
use crate::ids::Address;
use crate::metering::{
    charge_of, delegate_refusal, meter_account_refusal, metered, open_account_refusal,
    opened_contract, renew_account_refusal, renewed, MeterKeys, Metering, Refusal,
};
use crate::state::{saturating_sub, Contract, Site, TokenAccount};
use crate::text::push_str;
use crate::units::{decimal, push_decimal};

verus! {

/// Why a metering call would be refused.
#[derive(Debug, Clone, Copy, PartialEq, Eq)]
pub enum Blocked {
    /// The charge would carry `used` past the authorized limit, by `over`.
    /// The program refuses the whole call rather than metering part of it.
    LimitReached { over: u64 },
    /// The charge itself does not fit in a u64; the program raises
    /// `MathOverflow` for the same case.
    Overflow,
}

/// What [`Blocked::message`] says.
pub open spec fn blocked_text(b: Blocked) -> Seq<char> {
    match b {
        Blocked::LimitReached { over } => "charge exceeds the authorized limit by "@ + decimal(
            over as nat,
        ),
        Blocked::Overflow => "charge does not fit in u64"@,
    }
}

impl Blocked {
    /// Why, in words.
    pub fn message(&self) -> (r: String)
        ensures
            r@ == blocked_text(*self),
    {
        let mut out = String::new();
        match self {
            Blocked::LimitReached { over } => {
                push_str(&mut out, "charge exceeds the authorized limit by ");
                push_decimal(&mut out, *over);
            },
            Blocked::Overflow => push_str(&mut out, "charge does not fit in u64"),
        }
        out
    }
}

/// The answer [`can_meter`] gives.
pub open spec fn meter_check(c: Contract, s: Site, page_views: u32) -> Result<(), Blocked> {
    match charge_of(s, page_views) {
        None => Err(Blocked::Overflow),
        Some(charge) => if c.used + charge > u64::MAX {
            Err(Blocked::Overflow)
        } else if c.used + charge > c.limit {
            Err(Blocked::LimitReached { over: (c.used + charge - c.limit) as u64 })
        } else {
            Ok(())
        },
    }
}

/// The answer [`will_settle`] gives.
pub open spec fn settles(c: Contract, s: Site, page_views: u32) -> bool {
    match charge_of(s, page_views) {
        None => false,
        Some(charge) => c.used + charge <= u64::MAX && saturating_sub(
            (c.used + charge) as u64,
            c.paid,
        ) >= s.collection_threshold,
    }
}

/// The answer [`views_remaining`] gives.
pub open spec fn remaining_views(c: Contract, s: Site) -> u64 {
    if s.page_price == 0 {
        0
    } else {
        (saturating_sub(c.limit, c.used) / s.page_price) as u64
    }
}

/// The answer [`limit_floor`] gives: the site minimum, or the usage a
/// renewal would carry forward if that is more.
pub open spec fn floor_of(s: Site, c: Option<Contract>) -> u64 {
    let carried = match c {
        Some(c) => saturating_sub(c.used, c.paid),
        None => 0,
    };
    if s.min_limit >= carried {
        s.min_limit
    } else {
        carried
    }
}

/// What `page_views` costs at this site's price, or `None` when that does
/// not fit in a u64.
pub fn charge(site: &Site, page_views: u32) -> (r: Option<u64>)
    ensures
        r == charge_of(*site, page_views),
{
    site.page_price.checked_mul(page_views as u64)
}

/// Whether the program would accept a metering call of `page_views`, and if
/// not, why: the same two checks, in the same order.
pub fn can_meter(contract: &Contract, site: &Site, page_views: u32) -> (r: Result<(), Blocked>)
    ensures
        r == meter_check(*contract, *site, page_views),
{
    let charge = match charge(site, page_views) {
        Some(c) => c,
        None => return Err(Blocked::Overflow),
    };
    let new_used = match contract.used.checked_add(charge) {
        Some(u) => u,
        None => return Err(Blocked::Overflow),
    };
    if new_used > contract.limit {
        return Err(Blocked::LimitReached { over: new_used - contract.limit });
    }
    Ok(())
}

/// Whether this call would also move money, rather than only accruing
/// usage: the unpaid balance it leaves reaches the collection threshold.
/// A settling call touches the payer's token account, so it is the one
/// that can fail on a low balance.
pub fn will_settle(contract: &Contract, site: &Site, page_views: u32) -> (r: bool)
    ensures
        r == settles(*contract, *site, page_views),
{
    match charge(site, page_views) {
        Some(c) => match contract.used.checked_add(c) {
            Some(new_used) => new_used.saturating_sub(contract.paid) >= site.collection_threshold,
            None => false,
        },
        None => false,
    }
}

/// How many more views fit under the limit; none at a zero price.
pub fn views_remaining(contract: &Contract, site: &Site) -> (r: u64)
    ensures
        r == remaining_views(*contract, *site),
{
    if site.page_price == 0 {
        return 0;
    }
    contract.limit.saturating_sub(contract.used) / site.page_price
}

/// The smallest limit this payer may authorize right now: the site minimum
/// when opening, and when renewing also the usage carried forward.
pub fn limit_floor(site: &Site, contract: Option<&Contract>) -> (r: u64)
    ensures
        r == floor_of(
            *site,
            match contract {
                Some(c) => Some(*c),
                None => None,
            },
        ),
{
    let carried = match contract {
        Some(c) => c.unpaid(),
        None => 0,
    };
    if site.min_limit >= carried {
        site.min_limit
    } else {
        carried
    }
}

/// What the SPL approval must cover for a contract at `limit`: the whole
/// limit, since nothing is paid against a new limit yet.
#[verifier::allow_in_spec]
pub fn required_allowance(limit: u64) -> u64
    returns
        limit,
{
    limit
}

// ---------------------------------------------------------------------------
// The predicates agree with the program.

/// `can_meter` blocks exactly when the program refuses a metering call:
/// it answers `Ok` exactly when the program accepts, `LimitReached`
/// exactly when the program raises `LimitReached`, and `Overflow` exactly
/// when it raises `MathOverflow`, with `over` the amount the call would
/// carry usage past the limit. This needs `paid <= used`, which every
/// contract the program writes has, and a call whose accounts the program
/// takes (its signer the site's authority, the contract the payer's with
/// the site, and so on); `can_meter` does not see the accounts.
pub proof fn lemma_can_meter_matches_the_program(
    program_id: Address,
    s: Site,
    c: Contract,
    key: MeterKeys,
    account: TokenAccount,
    page_views: u32,
)
    requires
        c.paid <= c.used,
        meter_account_refusal(program_id, s, c, key, account) is None,
    ensures
        meter_check(c, s, page_views) is Ok <==> metered(
            program_id,
            s,
            c,
            key,
            account,
            page_views,
        ) is Ok,
        (meter_check(c, s, page_views) matches Err(Blocked::LimitReached { .. })) <==> metered(
            program_id,
            s,
            c,
            key,
            account,
            page_views,
        ) == Err::<Metering, Refusal>(Refusal::Program(PayError::LimitReached)),
        meter_check(c, s, page_views) == Err::<(), Blocked>(Blocked::Overflow) <==> metered(
            program_id,
            s,
            c,
            key,
            account,
            page_views,
        ) == Err::<Metering, Refusal>(Refusal::Program(PayError::MathOverflow)),
        meter_check(c, s, page_views) matches Err(Blocked::LimitReached { over }) ==> c.used
            + charge_of(s, page_views)->0 == c.limit + over,
{
}

/// `will_settle` predicts exactly when money moves: on any call the
/// program accepts, it is true if and only if the call transfers.
pub proof fn lemma_will_settle_predicts_the_transfer(
    program_id: Address,
    s: Site,
    c: Contract,
    key: MeterKeys,
    account: TokenAccount,
    page_views: u32,
)
    requires
        metered(program_id, s, c, key, account, page_views) is Ok,
    ensures
        settles(c, s, page_views) <==> metered(
            program_id,
            s,
            c,
            key,
            account,
            page_views,
        )->Ok_0.transfer is Some,
{
}

/// The views that remain are exactly the calls the program still accepts:
/// with a positive price and usage within the limit, a call of
/// `page_views` passes `can_meter` if and only if it is at most
/// `views_remaining`.
pub proof fn lemma_views_remaining_is_what_can_still_be_metered(
    s: Site,
    c: Contract,
    page_views: u32,
)
    requires
        s.page_price > 0,
        c.used <= c.limit,
    ensures
        meter_check(c, s, page_views) is Ok <==> page_views <= remaining_views(c, s),
{
    let room = (c.limit - c.used) as int;
    let p = s.page_price as int;
    let v = page_views as int;
    let q = room / p;
    assert(q * p <= room < q * p + p) by (nonlinear_arith)
        requires
            p > 0,
            room >= 0,
            q == room / p,
    ;
    if v <= q {
        assert(p * v <= p * q) by (nonlinear_arith)
            requires
                v <= q,
                p > 0,
        ;
        assert(p * q == q * p) by (nonlinear_arith);
    } else {
        assert(p * v >= p * (q + 1)) by (nonlinear_arith)
            requires
                v >= q + 1,
                p > 0,
        ;
        assert(p * (q + 1) == q * p + p) by (nonlinear_arith);
    }
}

/// `limit_floor` is the smallest limit a renewal accepts: for a renewal
/// whose accounts the program takes (the payer's own contract with the
/// site, at its address, and a token account of the payer's for the site's
/// mint) which delegates the new limit to the contract, the program renews at `new_limit` if and only if it is
/// at or above the floor. Needs `paid <= used`, which every contract the
/// program writes has.
pub proof fn lemma_limit_floor_is_the_smallest_renewal(
    program_id: Address,
    s: Site,
    site_key: Address,
    payer: Address,
    c: Contract,
    key: Address,
    account: TokenAccount,
    new_limit: u64,
)
    requires
        c.paid <= c.used,
        renew_account_refusal(program_id, s, site_key, payer, c, key, account) is None,
        delegate_refusal(account, key, new_limit) is None,
    ensures
        renewed(program_id, s, site_key, payer, c, key, account, new_limit) is Ok <==> new_limit
            >= floor_of(s, Some(c)),
{
}

/// With no contract yet, `limit_floor` is the smallest limit opening
/// accepts, for an opening whose accounts the program takes (the contract
/// account at its derived address, a token account of the payer's for the
/// site's mint) which delegates that limit to the contract.
pub proof fn lemma_limit_floor_is_the_smallest_opening(
    program_id: Address,
    s: Site,
    site_key: Address,
    payer: Address,
    key: Address,
    account: TokenAccount,
    limit: u64,
)
    requires
        open_account_refusal(program_id, s, site_key, payer, key, account) is None,
        delegate_refusal(account, key, limit) is None,
    ensures
        opened_contract(program_id, s, site_key, payer, key, account, limit) is Ok <==> limit
            >= floor_of(s, None),
{
}

/// An approval of `required_allowance(limit)` to the contract is exactly
/// enough: the delegate check passes at that allowance and fails at any
/// smaller one.
pub proof fn lemma_required_allowance_satisfies_the_delegate_check(
    account: TokenAccount,
    key: Address,
    limit: u64,
)
    requires
        account.delegate matches Some(d) && d@ == key@,
    ensures
        delegate_refusal(account, key, limit) is None <==> account.delegated_amount
            >= required_allowance(limit),
        account.delegated_amount < required_allowance(limit) ==> delegate_refusal(account, key, limit) == Some(
            PayError::DelegateAllowanceTooLow,
        ),
{
}

} // verus!
