use solana_pubkey::Pubkey;

use sol_pay_client::ids::{pay_on_chain_id, token_2022_program_id, Address};
use sol_pay_client::pda::{contract_address, site_address, CONTRACT_SEED, SITE_SEED};
use sol_pay_client::program::Program;

fn k(b: u8) -> Address {
    Address::new_from_array([b; 32])
}

fn pk(a: &Address) -> Pubkey {
    Pubkey::new_from_array(a.to_bytes())
}

#[test]
fn the_free_functions_are_the_canonical_deployment() {
    assert_eq!(site_address(&k(1)), Program::default().site_address(&k(1)));
    assert_eq!(
        contract_address(&k(1), &k(2)),
        Program::default().contract_address(&k(1), &k(2))
    );
}

#[test]
fn a_different_deployment_derives_different_addresses() {
    let mine = Program::new(k(9));
    assert_ne!(mine.site_address(&k(1)), site_address(&k(1)));
    assert_ne!(mine.contract_address(&k(1), &k(2)), contract_address(&k(1), &k(2)));
}

/// The seeds are the program's: `b"site"` and the authority, `b"contract"`,
/// the site and the payer, under the program's id.
#[test]
fn client_derives_the_same_addresses() {
    let authority = k(21);
    let payer = k(22);
    let program = pk(&pay_on_chain_id());

    let (site, site_bump) = site_address(&authority).unwrap();
    let expected = Pubkey::find_program_address(&[b"site", pk(&authority).as_ref()], &program);
    assert_eq!(pk(&site), expected.0, "site seeds");
    assert_eq!(site_bump, expected.1);

    let (contract, bump) = contract_address(&site, &payer).unwrap();
    let expected = Pubkey::find_program_address(
        &[b"contract", pk(&site).as_ref(), pk(&payer).as_ref()],
        &program,
    );
    assert_eq!(pk(&contract), expected.0, "contract seeds");
    assert_eq!(bump, expected.1);
}

#[test]
fn the_seeds_spell_their_names() {
    assert_eq!(&SITE_SEED, b"site");
    assert_eq!(&CONTRACT_SEED, b"contract");
}

#[test]
fn derivation_ignores_the_token_program() {
    let t22 = Program::default().with_token_program(token_2022_program_id());
    assert_eq!(t22.site_address(&k(3)), site_address(&k(3)));
    assert_eq!(t22.contract_address(&k(3), &k(4)), contract_address(&k(3), &k(4)));
}

#[test]
fn a_derived_address_is_off_the_curve_and_differs_from_its_seeds() {
    let (site, _) = site_address(&k(5)).unwrap();
    assert!(!pk(&site).is_on_curve());
    assert_ne!(site, k(5));
    let (contract, _) = contract_address(&site, &k(6)).unwrap();
    assert!(!pk(&contract).is_on_curve());
    assert_ne!(contract, site);
}
