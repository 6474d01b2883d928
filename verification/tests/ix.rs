use sha2::{Digest, Sha256};

use sol_pay_client::ids::{
    pay_on_chain_id, system_program_id, token_2022_program_id, token_program_id, Address,
};
use sol_pay_client::ix::{
    approve_checked, close_contract, discriminator, initialize_site, meter_and_settle,
    open_contract, renew_contract, revoke, AccountMeta, Instruction,
};
use sol_pay_client::pda;
use sol_pay_client::program::Program;

const DECIMALS: u8 = 6;
const LIMIT: u64 = 500_000;

fn expect(name: &str) -> [u8; 8] {
    let mut h = Sha256::new();
    h.update(format!("global:{name}").as_bytes());
    let out = h.finalize();
    let mut d = [0u8; 8];
    d.copy_from_slice(&out[..8]);
    d
}

fn k(b: u8) -> Address {
    Address::new_from_array([b; 32])
}

fn w(a: Address, signer: bool) -> AccountMeta {
    AccountMeta { pubkey: a, is_signer: signer, is_writable: true }
}

fn r(a: Address, signer: bool) -> AccountMeta {
    AccountMeta { pubkey: a, is_signer: signer, is_writable: false }
}

fn with_args(disc: [u8; 8], args: &[&[u8]]) -> Vec<u8> {
    let mut v = disc.to_vec();
    for a in args {
        v.extend_from_slice(a);
    }
    v
}

/// Compare in pieces so a failure says what diverged.
fn assert_same(label: &str, client: &Instruction, expected: &Instruction) {
    assert_eq!(client.program_id, expected.program_id, "{label}: program id");
    assert_eq!(client.data, expected.data, "{label}: instruction data");
    assert_eq!(client.accounts.len(), expected.accounts.len(), "{label}: account count");
    for (i, (c, a)) in client.accounts.iter().zip(expected.accounts.iter()).enumerate() {
        assert_eq!(c.pubkey, a.pubkey, "{label}: account {i} address");
        assert_eq!(c.is_signer, a.is_signer, "{label}: account {i} is_signer");
        assert_eq!(c.is_writable, a.is_writable, "{label}: account {i} is_writable");
    }
}

struct Fixture {
    authority: Address,
    payer: Address,
    mint: Address,
    treasury: Address,
    payer_ata: Address,
    site: Address,
}

impl Fixture {
    fn new() -> Self {
        let authority = k(31);
        let site = pda::site_address(&authority).unwrap().0;
        Fixture { authority, payer: k(32), mint: k(33), treasury: k(34), payer_ata: k(35), site }
    }

    fn contract(&self) -> Address {
        pda::contract_address(&self.site, &self.payer).unwrap().0
    }
}

#[test]
fn discriminators_match_instruction_names() {
    assert_eq!(discriminator::INITIALIZE_SITE, expect("initialize_site"));
    assert_eq!(discriminator::OPEN_CONTRACT, expect("open_contract"));
    assert_eq!(discriminator::METER_AND_SETTLE, expect("meter_and_settle"));
    assert_eq!(discriminator::RENEW_CONTRACT, expect("renew_contract"));
    assert_eq!(discriminator::CLOSE_CONTRACT, expect("close_contract"));
}

#[test]
fn meter_data_is_discriminator_plus_le_u32() {
    let p = pay_on_chain_id();
    let ix = meter_and_settle(&p, &p, &p, &p, &p, &p, 3).unwrap();
    assert_eq!(&ix.data[..8], &discriminator::METER_AND_SETTLE);
    assert_eq!(&ix.data[8..], &3u32.to_le_bytes());
    assert_eq!(ix.accounts.len(), 8);
    assert!(ix.accounts[1].is_signer, "authority signs");
    assert!(ix.accounts[3].is_writable, "contract is written");
}

/// Every program instruction carries the deployment's own address, and the
/// free functions carry the canonical one.
#[test]
fn instructions_are_stamped_with_the_deployment_that_built_them() {
    let mine = Program::new(k(9));
    for ix in [
        mine.initialize_site(&k(1), &k(2), &k(3), 10, 100, 50).unwrap(),
        mine.open_contract(&k(1), &k(2), &k(3), 500).unwrap(),
        mine.meter_and_settle(&k(1), &k(2), &k(3), &k(4), &k(5), &k(6), 3).unwrap(),
        mine.renew_contract(&k(1), &k(2), &k(3), 900).unwrap(),
        mine.close_contract(&k(1), &k(2)).unwrap(),
    ] {
        assert_eq!(ix.program_id, k(9));
    }
    assert_eq!(close_contract(&k(1), &k(2)).unwrap().program_id, pay_on_chain_id());
}

/// The delegate an approval names is a program address, so it moves with the
/// deployment even though the instruction itself belongs to SPL Token.
#[test]
fn an_approval_delegates_to_the_deployments_own_contract_pda() {
    let mine = Program::new(k(9));
    let ix = mine.approve_checked(&k(1), &k(2), &k(3), &k(4), 500, 6).unwrap();
    assert_eq!(ix.program_id, token_program_id(), "still an SPL instruction");
    assert_eq!(ix.accounts[2].pubkey, mine.contract_address(&k(4), &k(3)).unwrap().0);
    assert_ne!(
        ix.accounts[2].pubkey,
        approve_checked(&k(1), &k(2), &k(3), &k(4), 500, 6).unwrap().accounts[2].pubkey,
        "a different deployment delegates to a different PDA"
    );
}

/// The three instructions that address a token program take it from the
/// handle, and nothing else on them moves when it changes.
#[test]
fn the_token_program_follows_the_handle() {
    let spl = Program::default();
    let t22 = spl.with_token_program(token_2022_program_id());

    assert_eq!(
        t22.approve_checked(&k(1), &k(2), &k(3), &k(4), 500, 6).unwrap().program_id,
        token_2022_program_id()
    );
    assert_eq!(t22.revoke(&k(1), &k(3)).program_id, token_2022_program_id());

    let m = t22.meter_and_settle(&k(1), &k(2), &k(3), &k(4), &k(5), &k(6), 3).unwrap();
    assert_eq!(m.program_id, pay_on_chain_id(), "still our program");
    assert_eq!(m.accounts.last().map(|a| a.pubkey).unwrap(), token_2022_program_id());

    assert_eq!(t22.contract_address(&k(4), &k(3)), spl.contract_address(&k(4), &k(3)));
    assert_eq!(
        t22.approve_checked(&k(1), &k(2), &k(3), &k(4), 500, 6).unwrap().data,
        spl.approve_checked(&k(1), &k(2), &k(3), &k(4), 500, 6).unwrap().data
    );
}

#[test]
fn the_free_functions_are_the_canonical_deployment_on_spl_token() {
    let c = Program::default();
    assert_eq!(open_contract(&k(1), &k(2), &k(3), 500), c.open_contract(&k(1), &k(2), &k(3), 500));
    assert_eq!(close_contract(&k(1), &k(2)), c.close_contract(&k(1), &k(2)));
    assert_eq!(revoke(&k(1), &k(3)), c.revoke(&k(1), &k(3)));
    assert_eq!(revoke(&k(1), &k(3)).program_id, token_program_id());
}

#[test]
fn initialize_site_matches() {
    let f = Fixture::new();
    let expected = Instruction {
        program_id: pay_on_chain_id(),
        accounts: vec![
            w(f.authority, true),
            w(f.site, false),
            r(f.mint, false),
            r(f.treasury, false),
            r(system_program_id(), false),
        ],
        data: with_args(
            expect("initialize_site"),
            &[&1_000u64.to_le_bytes(), &50_000u64.to_le_bytes(), &200_000u64.to_le_bytes()],
        ),
    };
    let c = initialize_site(&f.authority, &f.mint, &f.treasury, 1_000, 50_000, 200_000).unwrap();
    assert_same("initialize_site", &c, &expected);
}

#[test]
fn open_contract_matches() {
    let f = Fixture::new();
    let expected = Instruction {
        program_id: pay_on_chain_id(),
        accounts: vec![
            w(f.payer, true),
            r(f.site, false),
            w(f.contract(), false),
            r(f.payer_ata, false),
            r(system_program_id(), false),
        ],
        data: with_args(expect("open_contract"), &[&LIMIT.to_le_bytes()]),
    };
    let c = open_contract(&f.site, &f.payer, &f.payer_ata, LIMIT).unwrap();
    assert_same("open_contract", &c, &expected);
}

#[test]
fn meter_and_settle_matches() {
    let f = Fixture::new();
    let expected = Instruction {
        program_id: pay_on_chain_id(),
        accounts: vec![
            r(f.site, false),
            r(f.authority, true),
            r(f.payer, false),
            w(f.contract(), false),
            w(f.payer_ata, false),
            w(f.treasury, false),
            r(f.mint, false),
            r(token_program_id(), false),
        ],
        data: with_args(expect("meter_and_settle"), &[&7u32.to_le_bytes()]),
    };
    let c = meter_and_settle(&f.site, &f.authority, &f.payer, &f.payer_ata, &f.treasury, &f.mint, 7)
        .unwrap();
    assert_same("meter_and_settle", &c, &expected);
}

#[test]
fn renew_contract_matches() {
    let f = Fixture::new();
    let expected = Instruction {
        program_id: pay_on_chain_id(),
        accounts: vec![
            w(f.payer, true),
            r(f.site, false),
            w(f.contract(), false),
            r(f.payer_ata, false),
            r(system_program_id(), false),
        ],
        data: with_args(expect("renew_contract"), &[&LIMIT.to_le_bytes()]),
    };
    let c = renew_contract(&f.site, &f.payer, &f.payer_ata, LIMIT).unwrap();
    assert_same("renew_contract", &c, &expected);
}

#[test]
fn close_contract_matches() {
    let f = Fixture::new();
    let expected = Instruction {
        program_id: pay_on_chain_id(),
        accounts: vec![w(f.payer, true), r(f.site, false), w(f.contract(), false)],
        data: expect("close_contract").to_vec(),
    };
    let c = close_contract(&f.site, &f.payer).unwrap();
    assert_same("close_contract", &c, &expected);
}

/// SPL Token's `ApproveChecked` is tag 13, the amount little-endian, then the
/// decimals; `Revoke` is tag 5. Accounts as SPL Token lists them.
#[test]
fn hand_rolled_spl_instructions_match_spl_token() {
    let f = Fixture::new();
    let mut data = vec![13u8];
    data.extend_from_slice(&LIMIT.to_le_bytes());
    data.push(DECIMALS);
    let theirs = Instruction {
        program_id: token_program_id(),
        accounts: vec![
            w(f.payer_ata, false),
            r(f.mint, false),
            r(f.contract(), false),
            r(f.payer, true),
        ],
        data,
    };
    let ours = approve_checked(&f.payer_ata, &f.mint, &f.payer, &f.site, LIMIT, DECIMALS).unwrap();
    assert_same("approve_checked", &ours, &theirs);

    let theirs = Instruction {
        program_id: token_program_id(),
        accounts: vec![w(f.payer_ata, false), r(f.payer, true)],
        data: vec![5u8],
    };
    let ours = revoke(&f.payer_ata, &f.payer);
    assert_same("revoke", &ours, &theirs);
}

#[test]
fn amounts_are_encoded_little_endian_at_their_extremes() {
    let f = Fixture::new();
    let ix = approve_checked(&f.payer_ata, &f.mint, &f.payer, &f.site, u64::MAX, 0).unwrap();
    assert_eq!(ix.data, [vec![13u8], vec![255u8; 8], vec![0u8]].concat());
    let ix = open_contract(&f.site, &f.payer, &f.payer_ata, 0x0102_0304_0506_0708).unwrap();
    assert_eq!(&ix.data[8..], &[8, 7, 6, 5, 4, 3, 2, 1]);
    let ix = meter_and_settle(&f.site, &f.authority, &f.payer, &f.payer_ata, &f.treasury, &f.mint, u32::MAX)
        .unwrap();
    assert_eq!(&ix.data[8..], &[255, 255, 255, 255]);
}

#[test]
fn account_meta_constructors_set_the_writable_flag() {
    assert_eq!(AccountMeta::new(k(1), true), w(k(1), true));
    assert_eq!(AccountMeta::new_readonly(k(1), false), r(k(1), false));
}

/// The `_at` forms build from the account they are given, whatever it is.
#[test]
fn the_at_forms_build_around_the_given_account() {
    let p = Program::new(k(9)).with_token_program(token_2022_program_id());
    let contract = k(70);

    let ix = p.open_contract_at(&contract, &k(1), &k(2), &k(3), 0x0102);
    assert_eq!(ix.program_id, k(9));
    assert_eq!(
        ix.accounts,
        vec![w(k(2), true), r(k(1), false), w(contract, false), r(k(3), false), r(system_program_id(), false)]
    );
    assert_eq!(ix.data, with_args(discriminator::OPEN_CONTRACT, &[&0x0102u64.to_le_bytes()]));

    let ix = p.renew_contract_at(&contract, &k(1), &k(2), &k(3), 9);
    assert_eq!(ix.accounts[2], w(contract, false));
    assert_eq!(ix.data, with_args(discriminator::RENEW_CONTRACT, &[&9u64.to_le_bytes()]));

    let ix = p.close_contract_at(&contract, &k(1), &k(2));
    assert_eq!(ix.accounts, vec![w(k(2), true), r(k(1), false), w(contract, false)]);
    assert_eq!(ix.data, discriminator::CLOSE_CONTRACT.to_vec());

    let ix = p.meter_and_settle_at(&contract, &k(1), &k(2), &k(3), &k(4), &k(5), &k(6), 258);
    assert_eq!(
        ix.accounts,
        vec![
            r(k(1), false),
            r(k(2), true),
            r(k(3), false),
            w(contract, false),
            w(k(4), false),
            w(k(5), false),
            r(k(6), false),
            r(token_2022_program_id(), false),
        ]
    );
    assert_eq!(ix.data, with_args(discriminator::METER_AND_SETTLE, &[&[2, 1, 0, 0]]));

    let ix = p.approve_checked_at(&contract, &k(4), &k(6), &k(2), 1, 9);
    assert_eq!(ix.program_id, token_2022_program_id());
    assert_eq!(ix.accounts, vec![w(k(4), false), r(k(6), false), r(contract, false), r(k(2), true)]);
    assert_eq!(ix.data, vec![13, 1, 0, 0, 0, 0, 0, 0, 0, 9]);

    let site = k(71);
    let ix = p.initialize_site_at(&site, &k(1), &k(2), &k(3), 1, 2, 3);
    assert_eq!(
        ix.accounts,
        vec![w(k(1), true), w(site, false), r(k(2), false), r(k(3), false), r(system_program_id(), false)]
    );
    assert_eq!(
        ix.data,
        with_args(
            discriminator::INITIALIZE_SITE,
            &[&1u64.to_le_bytes(), &2u64.to_le_bytes(), &3u64.to_le_bytes()]
        )
    );
}

/// A builder that derives is its `_at` form at the derived account.
#[test]
fn a_builder_is_its_at_form_at_the_derived_account() {
    let p = Program::default();
    let (site, payer, ata) = (k(1), k(2), k(3));
    let (contract, _) = p.contract_address(&site, &payer).unwrap();
    assert_eq!(
        p.open_contract(&site, &payer, &ata, 500).unwrap(),
        p.open_contract_at(&contract, &site, &payer, &ata, 500)
    );
    let (site_key, _) = p.site_address(&k(5)).unwrap();
    assert_eq!(
        p.initialize_site(&k(5), &k(6), &k(7), 1, 2, 3).unwrap(),
        p.initialize_site_at(&site_key, &k(5), &k(6), &k(7), 1, 2, 3)
    );
}
