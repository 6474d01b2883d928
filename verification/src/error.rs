//! Naming what went wrong, across two programs.
//!
//! A failed metering call can come from either side of a cross-program
//! call, and the two use different, overlapping code spaces. Anchor numbers
//! this program's errors from 6000 in declaration order; SPL Token numbers
//! its own from 0. A bare number never says whose it is, so nothing here
//! takes a code alone: the caller passes the program it pulled from the
//! transaction logs, and [`Program::cause`] recognises the metering
//! program's codes only from the deployment its handle names.

use vstd::prelude::*;

use crate::ids::{pay_on_chain_id, token_2022_program_id, token_program_id, Address};
use crate::program::Program;
use crate::state::{saturating_sub, TokenAccount};

verus! {

/// The metering program's errors, in declaration order.
#[derive(Debug, Clone, Copy, PartialEq, Eq, Hash)]
pub enum PayError {
    LimitBelowMinimum,
    MinimumBelowThreshold,
    ZeroPagePrice,
    LimitReached,
    DelegateNotSet,
    DelegateMismatch,
    DelegateAllowanceTooLow,
    LimitBelowUsage,
    MathOverflow,
}

/// Where Anchor starts numbering error variants.
pub const ANCHOR_ERROR_BASE: u32 = 6000;

/// The position of a variant in declaration order.
pub open spec fn pay_error_index(e: PayError) -> u32 {
    match e {
        PayError::LimitBelowMinimum => 0,
        PayError::MinimumBelowThreshold => 1,
        PayError::ZeroPagePrice => 2,
        PayError::LimitReached => 3,
        PayError::DelegateNotSet => 4,
        PayError::DelegateMismatch => 5,
        PayError::DelegateAllowanceTooLow => 6,
        PayError::LimitBelowUsage => 7,
        PayError::MathOverflow => 8,
    }
}

/// The error Anchor reports under `code`, if the code is one of ours.
pub open spec fn pay_error_for_code(code: u32) -> Option<PayError> {
    if code == 6000 {
        Some(PayError::LimitBelowMinimum)
    } else if code == 6001 {
        Some(PayError::MinimumBelowThreshold)
    } else if code == 6002 {
        Some(PayError::ZeroPagePrice)
    } else if code == 6003 {
        Some(PayError::LimitReached)
    } else if code == 6004 {
        Some(PayError::DelegateNotSet)
    } else if code == 6005 {
        Some(PayError::DelegateMismatch)
    } else if code == 6006 {
        Some(PayError::DelegateAllowanceTooLow)
    } else if code == 6007 {
        Some(PayError::LimitBelowUsage)
    } else if code == 6008 {
        Some(PayError::MathOverflow)
    } else {
        None
    }
}

impl PayError {
    /// The error under `code`, or `None` for a code that is not one of this
    /// program's. Codes below the base do not wrap around.
    pub fn from_code(code: u32) -> (r: Option<PayError>)
        ensures
            r == pay_error_for_code(code),
    {
        let i = match code.checked_sub(ANCHOR_ERROR_BASE) {
            Some(i) => i,
            None => return None,
        };
        match i {
            0 => Some(PayError::LimitBelowMinimum),
            1 => Some(PayError::MinimumBelowThreshold),
            2 => Some(PayError::ZeroPagePrice),
            3 => Some(PayError::LimitReached),
            4 => Some(PayError::DelegateNotSet),
            5 => Some(PayError::DelegateMismatch),
            6 => Some(PayError::DelegateAllowanceTooLow),
            7 => Some(PayError::LimitBelowUsage),
            8 => Some(PayError::MathOverflow),
            _ => None,
        }
    }

    /// The code Anchor reports: the base plus the declaration index.
    pub fn code(&self) -> (r: u32)
        ensures
            r == ANCHOR_ERROR_BASE + pay_error_index(*self),
    {
        let i: u32 = match self {
            PayError::LimitBelowMinimum => 0,
            PayError::MinimumBelowThreshold => 1,
            PayError::ZeroPagePrice => 2,
            PayError::LimitReached => 3,
            PayError::DelegateNotSet => 4,
            PayError::DelegateMismatch => 5,
            PayError::DelegateAllowanceTooLow => 6,
            PayError::LimitBelowUsage => 7,
            PayError::MathOverflow => 8,
        };
        ANCHOR_ERROR_BASE + i
    }

    /// The message the program attaches to the error.
    pub fn message(&self) -> (r: &'static str)
        ensures
            r@ == match *self {
                PayError::LimitBelowMinimum => "Limit is below the site minimum"@,
                PayError::MinimumBelowThreshold =>
                    "Site minimum limit must exceed the collection threshold"@,
                PayError::ZeroPagePrice => "Page price must be greater than zero"@,
                PayError::LimitReached => "Charge would carry usage past the authorized limit"@,
                PayError::DelegateNotSet => "Payer token account names no delegate"@,
                PayError::DelegateMismatch =>
                    "Payer token account delegates a different authority"@,
                PayError::DelegateAllowanceTooLow =>
                    "Delegated allowance does not cover the outstanding limit"@,
                PayError::LimitBelowUsage => "New limit does not cover usage already accrued"@,
                PayError::MathOverflow => "Arithmetic overflow"@,
            },
    {
        match self {
            PayError::LimitBelowMinimum => "Limit is below the site minimum",
            PayError::MinimumBelowThreshold =>
                "Site minimum limit must exceed the collection threshold",
            PayError::ZeroPagePrice => "Page price must be greater than zero",
            PayError::LimitReached => "Charge would carry usage past the authorized limit",
            PayError::DelegateNotSet => "Payer token account names no delegate",
            PayError::DelegateMismatch => "Payer token account delegates a different authority",
            PayError::DelegateAllowanceTooLow =>
                "Delegated allowance does not cover the outstanding limit",
            PayError::LimitBelowUsage => "New limit does not cover usage already accrued",
            PayError::MathOverflow => "Arithmetic overflow",
        }
    }
}

/// Every error's code reads back as that error, and every code that reads
/// back as an error is that error's code.
pub proof fn lemma_pay_error_codes_round_trip(e: PayError, code: u32)
    ensures
        pay_error_for_code((ANCHOR_ERROR_BASE + pay_error_index(e)) as u32) == Some(e),
        pay_error_for_code(code) == Some(e) ==> code == ANCHOR_ERROR_BASE + pay_error_index(e),
        code < ANCHOR_ERROR_BASE ==> pay_error_for_code(code) is None,
{
}

/// The SPL Token errors this flow can actually provoke.
#[derive(Debug, Clone, Copy, PartialEq, Eq, Hash)]
pub enum TokenError {
    /// Code 1. Raised both when the payer's balance is too low and when the
    /// delegated allowance is too low, which is why [`diagnose`] exists.
    InsufficientFunds,
    /// Code 3. The token account is for a different mint than the site's.
    MintMismatch,
    /// Code 4. Includes the case where the delegate was cleared.
    OwnerMismatch,
    /// Code 17.
    AccountFrozen,
    /// Code 18. Usually a client passing the wrong `decimals` to
    /// `approve_checked`.
    MintDecimalsMismatch,
}

/// SPL Token's number for each variant.
pub open spec fn token_error_code(e: TokenError) -> u32 {
    match e {
        TokenError::InsufficientFunds => 1,
        TokenError::MintMismatch => 3,
        TokenError::OwnerMismatch => 4,
        TokenError::AccountFrozen => 17,
        TokenError::MintDecimalsMismatch => 18,
    }
}

/// The variant SPL Token reports under `code`, among those named here.
pub open spec fn token_error_for_code(code: u32) -> Option<TokenError> {
    if code == 1 {
        Some(TokenError::InsufficientFunds)
    } else if code == 3 {
        Some(TokenError::MintMismatch)
    } else if code == 4 {
        Some(TokenError::OwnerMismatch)
    } else if code == 17 {
        Some(TokenError::AccountFrozen)
    } else if code == 18 {
        Some(TokenError::MintDecimalsMismatch)
    } else {
        None
    }
}

impl TokenError {
    pub fn from_code(code: u32) -> (r: Option<TokenError>)
        ensures
            r == token_error_for_code(code),
    {
        match code {
            1 => Some(TokenError::InsufficientFunds),
            3 => Some(TokenError::MintMismatch),
            4 => Some(TokenError::OwnerMismatch),
            17 => Some(TokenError::AccountFrozen),
            18 => Some(TokenError::MintDecimalsMismatch),
            _ => None,
        }
    }

    pub fn code(&self) -> (r: u32)
        ensures
            r == token_error_code(*self),
    {
        match self {
            TokenError::InsufficientFunds => 1,
            TokenError::MintMismatch => 3,
            TokenError::OwnerMismatch => 4,
            TokenError::AccountFrozen => 17,
            TokenError::MintDecimalsMismatch => 18,
        }
    }

    pub fn message(&self) -> (r: &'static str)
        ensures
            r@ == match *self {
                TokenError::InsufficientFunds => "Insufficient funds or delegated allowance"@,
                TokenError::MintMismatch => "Token account is for a different mint"@,
                TokenError::OwnerMismatch => "Wrong owner, or the delegate is no longer set"@,
                TokenError::AccountFrozen => "Token account is frozen"@,
                TokenError::MintDecimalsMismatch => "Decimals do not match the mint"@,
            },
    {
        match self {
            TokenError::InsufficientFunds => "Insufficient funds or delegated allowance",
            TokenError::MintMismatch => "Token account is for a different mint",
            TokenError::OwnerMismatch => "Wrong owner, or the delegate is no longer set",
            TokenError::AccountFrozen => "Token account is frozen",
            TokenError::MintDecimalsMismatch => "Decimals do not match the mint",
        }
    }
}

/// Every SPL variant's code reads back as that variant, and only its code
/// does.
pub proof fn lemma_token_error_codes_round_trip(e: TokenError, code: u32)
    ensures
        token_error_for_code(token_error_code(e)) == Some(e),
        token_error_for_code(code) == Some(e) ==> code == token_error_code(e),
{
}

/// What raised a failure, once the caller has said which program did.
#[derive(Debug, Clone, Copy, PartialEq, Eq)]
pub enum Cause {
    Program(PayError),
    Token(TokenError),
    /// A program or code neither this library nor the integrator
    /// anticipated; mapping it onto our own enum would be a lie.
    Unknown { program: Address, code: u32 },
}

/// The cause named by `program` and `code`, when `deployment` is where the
/// metering program lives: its own codes are named only when the raising
/// program is that deployment.
pub open spec fn cause_of(deployment: Address, program: Address, code: u32) -> Cause {
    let known = if program@ == deployment@ {
        match pay_error_for_code(code) {
            Some(e) => Some(Cause::Program(e)),
            None => None,
        }
    } else if program@ == token_program_id()@ || program@ == token_2022_program_id()@ {
        match token_error_for_code(code) {
            Some(e) => Some(Cause::Token(e)),
            None => None,
        }
    } else {
        None
    };
    match known {
        Some(c) => c,
        None => Cause::Unknown { program, code },
    }
}

impl Program {
    /// Name a failure, given the program that raised it and its code. This
    /// program's codes are recognised when they come from this handle's
    /// deployment, so a site on its own deployment keeps the names.
    pub fn cause(&self, program: &Address, code: u32) -> (r: Cause)
        ensures
            r == cause_of(self.deployment(), *program, code),
    {
        let known = if program.same_as(&self.id()) {
            match PayError::from_code(code) {
                Some(e) => Some(Cause::Program(e)),
                None => None,
            }
        } else if program.same_as(&token_program_id()) || program.same_as(
            &token_2022_program_id(),
        ) {
            match TokenError::from_code(code) {
                Some(e) => Some(Cause::Token(e)),
                None => None,
            }
        } else {
            None
        };
        match known {
            Some(c) => c,
            None => Cause::Unknown { program: *program, code },
        }
    }
}

/// Name a failure against the canonical deployment.
pub fn cause(program: &Address, code: u32) -> (r: Cause)
    ensures
        r == cause_of(pay_on_chain_id(), *program, code),
{
    Program::canonical().cause(program, code)
}

/// The same number means different things per program: a code the
/// metering program raises is never read as an SPL Token error, nor the
/// other way round, and a program the library does not know stays unknown.
pub proof fn lemma_causes_are_told_apart_by_program(deployment: Address, program: Address, code: u32)
    requires
        deployment@ != token_program_id()@,
        deployment@ != token_2022_program_id()@,
    ensures
        program@ == deployment@ ==> !(cause_of(deployment, program, code) is Token),
        (program@ == token_program_id()@ || program@ == token_2022_program_id()@)
            ==> !(cause_of(deployment, program, code) is Program),
        program@ != deployment@ && program@ != token_program_id()@ && program@
            != token_2022_program_id()@ ==> cause_of(deployment, program, code) == (Cause::Unknown {
            program,
            code,
        }),
{
}

/// Which constraint on the payer's token account is short, and by how much.
#[derive(Debug, Clone, Copy, PartialEq, Eq)]
pub struct Shortfall {
    /// Zero when the balance covers it.
    pub balance_short: u64,
    /// Zero when the allowance covers it.
    pub allowance_short: u64,
    /// False once SPL has cleared the delegate.
    pub delegate_present: bool,
}

impl Shortfall {
    /// Nothing on this account would stop a transfer of the amount asked
    /// about: neither quantity is short and some delegate is set. Whether the
    /// delegate is the one expected is not part of this answer.
    pub fn is_clear(&self) -> (r: bool)
        ensures
            r == (self.balance_short == 0 && self.allowance_short == 0 && self.delegate_present),
    {
        self.balance_short == 0 && self.allowance_short == 0 && self.delegate_present
    }
}

/// Read the payer's token account and say what would stop a settle of
/// `unpaid`. Neither shortfall is inferable from the error code, because SPL
/// reports both as `InsufficientFunds`.
pub fn diagnose(account: &TokenAccount, unpaid: u64) -> (r: Shortfall)
    ensures
        r.balance_short == saturating_sub(unpaid, account.amount),
        r.allowance_short == saturating_sub(unpaid, account.delegated_amount),
        r.delegate_present == account.delegate is Some,
{
    Shortfall {
        balance_short: unpaid.saturating_sub(account.amount),
        allowance_short: unpaid.saturating_sub(account.delegated_amount),
        delegate_present: account.delegate.is_some(),
    }
}

} // verus!
