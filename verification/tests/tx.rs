use sol_pay_client::ids::{pay_on_chain_id, token_2022_program_id, token_program_id, Address};
use sol_pay_client::ix;
use sol_pay_client::program::Program;
use sol_pay_client::tx::{approve_and_open, approve_and_renew, close_and_revoke};

fn k(b: u8) -> Address {
    Address::new_from_array([b; 32])
}

#[test]
fn the_approval_comes_first() {
    let t = approve_and_open(&k(1), &k(2), &k(3), &k(4), 500, 6).unwrap();
    assert_eq!(t[0].program_id, token_program_id(), "approve is first");
    assert_eq!(t[1].program_id, pay_on_chain_id());

    let t = approve_and_renew(&k(1), &k(2), &k(3), &k(4), 900, 6).unwrap();
    assert_eq!(t[0].program_id, token_program_id());
    assert_eq!(t[1].program_id, pay_on_chain_id());
}

#[test]
fn the_pair_matches_the_builders_it_wraps() {
    let (ata, mint, payer, site) = (k(1), k(2), k(3), k(4));
    let t = approve_and_open(&ata, &mint, &payer, &site, 500, 6).unwrap();
    assert_eq!(t[0], ix::approve_checked(&ata, &mint, &payer, &site, 500, 6).unwrap());
    assert_eq!(t[1], ix::open_contract(&site, &payer, &ata, 500).unwrap());

    let t = approve_and_renew(&ata, &mint, &payer, &site, 900, 6).unwrap();
    assert_eq!(t[0], ix::approve_checked(&ata, &mint, &payer, &site, 900, 6).unwrap());
    assert_eq!(t[1], ix::renew_contract(&site, &payer, &ata, 900).unwrap());
}

#[test]
fn closing_revokes_after_the_close() {
    let t = close_and_revoke(&k(1), &k(3), &k(4)).unwrap();
    assert_eq!(t[0].program_id, pay_on_chain_id(), "close is first");
    assert_eq!(t[1].program_id, token_program_id(), "revoke follows");
    assert_eq!(t[1], ix::revoke(&k(1), &k(3)));
    assert_eq!(t[0], ix::close_contract(&k(4), &k(3)).unwrap());
}

/// Both halves of the pair follow the deployment: the program half by its
/// program id, the SPL half by the program address it delegates to.
#[test]
fn a_pair_stays_within_one_deployment() {
    let mine = Program::new(k(9));
    let t = mine.approve_and_open(&k(1), &k(2), &k(3), &k(4), 500, 6).unwrap();
    assert_eq!(t[1].program_id, k(9));
    assert_eq!(t[0].accounts[2].pubkey, mine.contract_address(&k(4), &k(3)).unwrap().0);
}

#[test]
fn a_pair_goes_to_the_handles_token_program() {
    let t22 = Program::default().with_token_program(token_2022_program_id());
    let t = t22.approve_and_renew(&k(1), &k(2), &k(3), &k(4), 900, 6).unwrap();
    assert_eq!(t[0].program_id, token_2022_program_id());
    let t = t22.close_and_revoke(&k(1), &k(3), &k(4)).unwrap();
    assert_eq!(t[1].program_id, token_2022_program_id());
}
