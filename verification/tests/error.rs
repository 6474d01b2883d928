use sol_pay_client::error::{cause, diagnose, Cause, PayError, TokenError, ANCHOR_ERROR_BASE};
use sol_pay_client::ids::{pay_on_chain_id, token_2022_program_id, token_program_id, Address};
use sol_pay_client::program::Program;
use sol_pay_client::state::TokenAccount;

#[test]
fn pay_error_codes_round_trip() {
    for e in [
        PayError::LimitBelowMinimum,
        PayError::LimitReached,
        PayError::DelegateAllowanceTooLow,
        PayError::MathOverflow,
    ] {
        assert_eq!(PayError::from_code(e.code()), Some(e));
    }
    assert_eq!(PayError::LimitReached.code(), 6003);
    assert_eq!(PayError::from_code(5999), None);
    assert_eq!(PayError::from_code(6009), None);
    // A code below the base must not wrap around.
    assert_eq!(PayError::from_code(0), None);
}

#[test]
fn token_error_codes_round_trip() {
    for e in [TokenError::InsufficientFunds, TokenError::MintDecimalsMismatch] {
        assert_eq!(TokenError::from_code(e.code()), Some(e));
    }
    assert_eq!(TokenError::from_code(2), None);
}

/// 1 and 6003 are different programs speaking, and neither number means
/// anything on its own.
#[test]
fn the_same_number_means_different_things_per_program() {
    assert_eq!(
        cause(&pay_on_chain_id(), 6003),
        Cause::Program(PayError::LimitReached)
    );
    assert_eq!(
        cause(&token_program_id(), 1),
        Cause::Token(TokenError::InsufficientFunds)
    );
    // Our program never raises 1, so it is not one of ours.
    assert!(matches!(
        cause(&pay_on_chain_id(), 1),
        Cause::Unknown { code: 1, .. }
    ));
    // Token-2022 shares the code space.
    assert_eq!(
        cause(&token_2022_program_id(), 1),
        Cause::Token(TokenError::InsufficientFunds)
    );
}

#[test]
fn an_unrecognised_program_stays_unknown() {
    let other = Address::new_from_array([9u8; 32]);
    assert_eq!(
        cause(&other, 6003),
        Cause::Unknown {
            program: other,
            code: 6003
        }
    );
}

fn account(amount: u64, delegated: u64, has_delegate: bool) -> TokenAccount {
    TokenAccount {
        mint: Address::new_from_array([1u8; 32]),
        owner: Address::new_from_array([2u8; 32]),
        amount,
        delegate: if has_delegate { Some(Address::new_from_array([3u8; 32])) } else { None },
        delegated_amount: delegated,
    }
}

#[test]
fn diagnose_separates_what_the_error_code_conflates() {
    // Balance short, allowance fine.
    let d = diagnose(&account(40, 500, true), 100);
    assert_eq!(d.balance_short, 60);
    assert_eq!(d.allowance_short, 0);
    assert!(!d.is_clear());

    // Allowance short, balance fine.
    let d = diagnose(&account(500, 40, true), 100);
    assert_eq!(d.balance_short, 0);
    assert_eq!(d.allowance_short, 60);

    // Both, which a single verdict would have to pick between.
    let d = diagnose(&account(40, 30, true), 100);
    assert_eq!(d.balance_short, 60);
    assert_eq!(d.allowance_short, 70);

    // Spent to zero: SPL clears the delegate.
    let d = diagnose(&account(500, 0, false), 100);
    assert!(!d.delegate_present);
    assert_eq!(d.allowance_short, 100);

    let d = diagnose(&account(500, 500, true), 100);
    assert!(d.is_clear());
}

/// Each variant carries the code Anchor assigns it: the base plus its
/// position in the program's declaration order.
#[test]
fn client_error_codes_match_the_program() {
    assert_eq!(ANCHOR_ERROR_BASE, 6000, "the client's error base is no longer Anchor's");
    let in_declaration_order = [
        PayError::LimitBelowMinimum,
        PayError::MinimumBelowThreshold,
        PayError::ZeroPagePrice,
        PayError::LimitReached,
        PayError::DelegateNotSet,
        PayError::DelegateMismatch,
        PayError::DelegateAllowanceTooLow,
        PayError::LimitBelowUsage,
        PayError::MathOverflow,
    ];
    for (i, client) in in_declaration_order.into_iter().enumerate() {
        let code = 6000 + i as u32;
        assert_eq!(client.code(), code, "{client:?} code disagrees with the program");
        assert_eq!(PayError::from_code(code), Some(client));
    }
}

/// A site on its own deployment keeps the names of the program's errors;
/// the canonical deployment's codes are then someone else's.
#[test]
fn cause_follows_the_deployment() {
    let mine = Program::new(Address::new_from_array([9u8; 32]));
    assert_eq!(
        mine.cause(&Address::new_from_array([9u8; 32]), 6003),
        Cause::Program(PayError::LimitReached)
    );
    assert_eq!(
        mine.cause(&pay_on_chain_id(), 6003),
        Cause::Unknown { program: pay_on_chain_id(), code: 6003 }
    );
    assert_eq!(mine.cause(&token_program_id(), 18), Cause::Token(TokenError::MintDecimalsMismatch));
    assert_eq!(Program::default().cause(&pay_on_chain_id(), 6008), cause(&pay_on_chain_id(), 6008));
}

#[test]
fn every_named_code_reads_back() {
    for code in 0..7000u32 {
        if let Some(e) = PayError::from_code(code) {
            assert_eq!(e.code(), code);
        }
        if let Some(e) = TokenError::from_code(code) {
            assert_eq!(e.code(), code);
        }
    }
    assert_eq!(TokenError::AccountFrozen.code(), 17);
    assert_eq!(TokenError::from_code(3), Some(TokenError::MintMismatch));
    assert_eq!(TokenError::from_code(4), Some(TokenError::OwnerMismatch));
}

#[test]
fn messages_name_the_failure() {
    assert_eq!(PayError::LimitReached.message(), "Charge would carry usage past the authorized limit");
    assert_eq!(PayError::MathOverflow.message(), "Arithmetic overflow");
    assert_eq!(TokenError::InsufficientFunds.message(), "Insufficient funds or delegated allowance");
}

#[test]
fn a_known_program_with_an_unknown_code_is_unknown() {
    assert_eq!(
        cause(&token_program_id(), 2),
        Cause::Unknown { program: token_program_id(), code: 2 }
    );
    assert_eq!(
        cause(&pay_on_chain_id(), 6009),
        Cause::Unknown { program: pay_on_chain_id(), code: 6009 }
    );
}
