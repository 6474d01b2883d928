use sol_pay_client::ids::Address;
use sol_pay_client::state::{
    discriminator, mint_decimals, Contract, DecodeError, Site, TokenAccount, CONTRACT_LEN,
    MINT_DECIMALS_OFFSET, MINT_MIN_LEN, SITE_LEN, TOKEN_ACCOUNT_LEN,
};

fn k(b: u8) -> Address {
    Address::new_from_array([b; 32])
}

fn site_bytes() -> Vec<u8> {
    let mut v = Vec::new();
    v.extend_from_slice(&discriminator::SITE);
    v.extend_from_slice(&[1u8; 32]);
    v.extend_from_slice(&[2u8; 32]);
    v.extend_from_slice(&[3u8; 32]);
    v.extend_from_slice(&10_000u64.to_le_bytes());
    v.extend_from_slice(&250_000u64.to_le_bytes());
    v.extend_from_slice(&500_000u64.to_le_bytes());
    v.push(254);
    v
}

fn contract_bytes(site: Address, payer: Address, limit: u64, used: u64, paid: u64, bump: u8) -> Vec<u8> {
    let mut v = Vec::new();
    v.extend_from_slice(&discriminator::CONTRACT);
    v.extend_from_slice(&site.to_bytes());
    v.extend_from_slice(&payer.to_bytes());
    v.extend_from_slice(&limit.to_le_bytes());
    v.extend_from_slice(&used.to_le_bytes());
    v.extend_from_slice(&paid.to_le_bytes());
    v.push(bump);
    v
}

#[test]
fn site_decodes_field_by_field() {
    let s = Site::decode(&site_bytes()).unwrap();
    assert_eq!(s.authority, Address::new_from_array([1u8; 32]));
    assert_eq!(s.mint, Address::new_from_array([2u8; 32]));
    assert_eq!(s.treasury, Address::new_from_array([3u8; 32]));
    assert_eq!(s.page_price, 10_000);
    assert_eq!(s.collection_threshold, 250_000);
    assert_eq!(s.min_limit, 500_000);
    assert_eq!(s.bump, 254);
}

#[test]
fn a_wrong_discriminator_is_refused() {
    let mut bytes = site_bytes();
    bytes[0] ^= 0xff;
    assert_eq!(Site::decode(&bytes), Err(DecodeError::WrongDiscriminator));
}

#[test]
fn a_short_account_is_refused_before_it_is_read() {
    let bytes = site_bytes();
    assert_eq!(
        Site::decode(&bytes[..SITE_LEN - 1]),
        Err(DecodeError::WrongLength {
            expected: SITE_LEN,
            got: SITE_LEN - 1
        })
    );
}

#[test]
fn unpaid_and_outstanding_saturate() {
    let c = Contract {
        site: Address::new_from_array([0u8; 32]),
        payer: Address::new_from_array([0u8; 32]),
        limit: 100,
        used: 40,
        paid: 60, // impossible on chain; the helpers must not panic
        bump: 255,
    };
    assert_eq!(c.unpaid(), 0);
    assert_eq!(c.outstanding(), 40);
}

#[test]
fn token_account_decodes_amount_and_delegation() {
    let mut a = vec![0u8; TOKEN_ACCOUNT_LEN];
    a[0..32].copy_from_slice(&[4u8; 32]); // mint
    a[32..64].copy_from_slice(&[5u8; 32]); // owner
    a[64..72].copy_from_slice(&900u64.to_le_bytes()); // amount
    a[72..76].copy_from_slice(&1u32.to_le_bytes()); // delegate: Some
    a[76..108].copy_from_slice(&[6u8; 32]);
    a[121..129].copy_from_slice(&400u64.to_le_bytes()); // delegated_amount

    let t = TokenAccount::decode(&a).unwrap();
    assert_eq!(t.mint, Address::new_from_array([4u8; 32]));
    assert_eq!(t.owner, Address::new_from_array([5u8; 32]));
    assert_eq!(t.amount, 900);
    assert_eq!(t.delegate, Some(Address::new_from_array([6u8; 32])));
    assert_eq!(t.delegated_amount, 400);

    // Tag zero means no delegate, whatever bytes follow it.
    a[72..76].copy_from_slice(&0u32.to_le_bytes());
    assert_eq!(TokenAccount::decode(&a).unwrap().delegate, None);

    assert!(TokenAccount::decode(&a[..100]).is_err());
}

#[test]
fn mint_decimals_reads_the_fixed_offset() {
    let mut mint = vec![0u8; MINT_MIN_LEN];
    mint[MINT_DECIMALS_OFFSET] = 6;
    assert_eq!(mint_decimals(&mint).unwrap(), 6);

    // Token-2022 mints carry extensions past the base layout.
    let mut extended = mint.clone();
    extended.extend_from_slice(&[7u8; 40]);
    assert_eq!(mint_decimals(&extended).unwrap(), 6);

    assert!(mint_decimals(&mint[..10]).is_err());
}

/// A field added on chain shifts every field after it; the sizes are the
/// discriminator plus the fields in declaration order.
#[test]
fn client_account_sizes_match_the_program() {
    assert_eq!(SITE_LEN, 8 + 32 + 32 + 32 + 8 + 8 + 8 + 1, "Site length");
    assert_eq!(CONTRACT_LEN, 8 + 32 + 32 + 8 + 8 + 8 + 1, "Contract length");
}

/// Accounts laid out the way the program writes them, read back.
#[test]
fn client_decodes_what_anchor_serializes() {
    let mut bytes = Vec::new();
    bytes.extend_from_slice(&discriminator::SITE);
    bytes.extend_from_slice(&k(11).to_bytes());
    bytes.extend_from_slice(&k(12).to_bytes());
    bytes.extend_from_slice(&k(13).to_bytes());
    bytes.extend_from_slice(&10_000u64.to_le_bytes());
    bytes.extend_from_slice(&250_000u64.to_le_bytes());
    bytes.extend_from_slice(&500_000u64.to_le_bytes());
    bytes.push(253);
    assert_eq!(bytes.len(), SITE_LEN, "serialized Site length");

    let decoded = Site::decode(&bytes).expect("client decodes Site");
    assert_eq!(decoded.authority, k(11));
    assert_eq!(decoded.mint, k(12));
    assert_eq!(decoded.treasury, k(13));
    assert_eq!(decoded.page_price, 10_000);
    assert_eq!(decoded.collection_threshold, 250_000);
    assert_eq!(decoded.min_limit, 500_000);
    assert_eq!(decoded.bump, 253);

    let bytes = contract_bytes(k(14), k(15), 500_000, 120_000, 100_000, 251);
    assert_eq!(bytes.len(), CONTRACT_LEN, "serialized Contract length");

    let decoded = Contract::decode(&bytes).expect("client decodes Contract");
    assert_eq!(decoded.site, k(14));
    assert_eq!(decoded.payer, k(15));
    assert_eq!(decoded.limit, 500_000);
    assert_eq!(decoded.used, 120_000);
    assert_eq!(decoded.paid, 100_000);
    assert_eq!(decoded.bump, 251);
    assert_eq!(decoded.unpaid(), 20_000);
    assert_eq!(decoded.outstanding(), 400_000);
}

/// An account of the wrong type must be refused, not reinterpreted: a
/// Site's bytes are refused as a Contract, and a Contract-length account
/// with a Site's discriminator is refused by its discriminator.
#[test]
fn client_refuses_an_account_of_another_type() {
    let bytes = site_bytes();
    assert!(Contract::decode(&bytes).is_err(), "a Site must not decode as a Contract");

    let mut bytes = contract_bytes(k(1), k(2), 3, 2, 1, 250);
    bytes[..8].copy_from_slice(&discriminator::SITE);
    assert_eq!(Contract::decode(&bytes), Err(DecodeError::WrongDiscriminator));
}

#[test]
fn a_long_account_is_refused_too() {
    let mut bytes = site_bytes();
    bytes.push(0);
    assert_eq!(
        Site::decode(&bytes),
        Err(DecodeError::WrongLength { expected: SITE_LEN, got: SITE_LEN + 1 })
    );
}

#[test]
fn little_endian_fields_decode_at_their_extremes() {
    let bytes = contract_bytes(k(0), k(255), u64::MAX, 0x0102_0304_0506_0708, 1, 0);
    let c = Contract::decode(&bytes).unwrap();
    assert_eq!(c.limit, u64::MAX);
    assert_eq!(c.used, 0x0102_0304_0506_0708);
    assert_eq!(c.paid, 1);
    assert_eq!(c.payer, k(255));
}

#[test]
fn decode_errors_read_as_sentences() {
    assert_eq!(DecodeError::WrongDiscriminator.message(), "account discriminator does not match");
    assert_eq!(
        DecodeError::WrongLength { expected: SITE_LEN, got: 12 }.message(),
        "account should be 129 bytes, got 12"
    );
}
