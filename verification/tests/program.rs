use std::str::FromStr;

use solana_pubkey::Pubkey;

use sol_pay_client::ids::{
    pay_on_chain_id, system_program_id, token_2022_program_id, token_program_id, Address,
};
use sol_pay_client::program::Program;

fn k(b: u8) -> Address {
    Address::new_from_array([b; 32])
}

fn base58(s: &str) -> [u8; 32] {
    Pubkey::from_str(s).unwrap().to_bytes()
}

#[test]
fn the_default_is_the_compiled_in_deployment_on_spl_token() {
    assert_eq!(Program::default().id(), pay_on_chain_id());
    assert_eq!(Program::default().token_program(), token_program_id());
    assert_eq!(Program::canonical(), Program::default());
}

#[test]
fn a_custom_deployment_keeps_the_id_it_was_given() {
    let mine = Address::new_from_array([7u8; 32]);
    assert_eq!(Program::new(mine).id(), mine);
    assert_ne!(Program::new(mine), Program::default());
}

/// The two axes are independent: a custom deployment on SPL Token, and the
/// canonical deployment on Token-2022, are both reachable.
#[test]
fn the_deployment_and_the_token_program_vary_separately() {
    let mine = Address::new_from_array([7u8; 32]);

    let t22 = Program::default().with_token_program(token_2022_program_id());
    assert_eq!(t22.id(), pay_on_chain_id(), "deployment is untouched");
    assert_eq!(t22.token_program(), token_2022_program_id());

    let both = Program::new(mine).with_token_program(token_2022_program_id());
    assert_eq!(both.id(), mine);
    assert_eq!(both.token_program(), token_2022_program_id());

    assert_eq!(Program::new(mine).token_program(), token_program_id());
}

#[test]
fn a_mint_belongs_to_exactly_one_of_them() {
    let pay = Program::default();
    assert!(pay.owns_mint(&token_program_id()));
    assert!(!pay.owns_mint(&token_2022_program_id()));

    let t22 = pay.with_token_program(token_2022_program_id());
    assert!(t22.owns_mint(&token_2022_program_id()));
    assert!(!t22.owns_mint(&token_program_id()));
}

#[test]
fn from_an_address_is_new() {
    assert_eq!(Program::from(k(5)), Program::new(k(5)));
}

#[test]
fn client_and_program_agree_on_the_program_id() {
    assert_eq!(
        pay_on_chain_id().to_bytes(),
        base58("F8UDAGgxVTm8Vmh4RmskpMBCFqhRvuTqbDxDCj8UMedL"),
        "the client's hardcoded program id has drifted from declare_id!"
    );
}

#[test]
fn the_default_deployment_is_this_program() {
    assert_eq!(
        Program::default().id().to_bytes(),
        base58("F8UDAGgxVTm8Vmh4RmskpMBCFqhRvuTqbDxDCj8UMedL"),
        "Program::default() has drifted from declare_id!"
    );
    let authority = k(42);
    assert_eq!(
        Program::default().site_address(&authority),
        sol_pay_client::pda::site_address(&authority),
        "the free functions are not the default deployment"
    );
}

#[test]
fn client_hardcoded_program_ids_are_correct() {
    assert_eq!(
        token_program_id().to_bytes(),
        base58("TokenkegQfeZyiNwAJbNbGKPFXCWuBvf9Ss623VQ5DA"),
        "SPL Token program id"
    );
    assert_eq!(
        system_program_id().to_bytes(),
        base58("11111111111111111111111111111111"),
        "System program id"
    );
    assert_eq!(
        token_2022_program_id().to_bytes(),
        base58("TokenzQdBNbLqP5VEhdkAS6EPFLC1PHnBqCXEpPxuEb"),
        "Token-2022 program id"
    );
}
