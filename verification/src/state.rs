//! Decoding the program's accounts, and the payer's token account.
//!
//! Anchor writes an 8-byte discriminator followed by the fields in
//! declaration order, little-endian; these read that back by hand. SPL token
//! accounts carry no discriminator and have a fixed 165-byte base layout.

use vstd::prelude::*;

use crate::ids::Address;
use crate::text::push_str;
use crate::units::{decimal, push_decimal};

pub mod discriminator;

verus! {

/// 8 discriminator + 32 + 32 + 32 + 8 + 8 + 8 + 1
pub const SITE_LEN: usize = 129;

/// 8 discriminator + 32 + 32 + 8 + 8 + 8 + 1
pub const CONTRACT_LEN: usize = 97;

/// SPL mint accounts are at least this long; Token-2022 adds extensions after.
pub const MINT_MIN_LEN: usize = 82;

/// SPL token accounts are at least this long, same caveat.
pub const TOKEN_ACCOUNT_LEN: usize = 165;

/// Byte offset of `decimals` within an SPL mint.
pub const MINT_DECIMALS_OFFSET: usize = 44;

/// Why bytes are not the account asked for.
#[derive(Debug, Clone, Copy, PartialEq, Eq)]
pub enum DecodeError {
    /// The account belongs to something else, or to a later layout.
    WrongDiscriminator,
    WrongLength { expected: usize, got: usize },
}

/// Per-site configuration: pricing, the mint, and who may meter.
#[derive(Debug, Clone, Copy, PartialEq, Eq)]
pub struct Site {
    /// Signer permitted to meter usage: the server, not the payer.
    pub authority: Address,
    /// Mint that page views are priced and settled in.
    pub mint: Address,
    /// Token account that collected funds land in.
    pub treasury: Address,
    /// Cost of a single page view, in mint base units.
    pub page_price: u64,
    /// Smallest unpaid balance worth a transfer.
    pub collection_threshold: u64,
    /// Smallest limit a payer may authorize.
    pub min_limit: u64,
    pub bump: u8,
}

/// One payer's spending contract with one site.
#[derive(Debug, Clone, Copy, PartialEq, Eq)]
pub struct Contract {
    pub site: Address,
    pub payer: Address,
    /// Ceiling on `used`, authorized by the payer's delegate approval.
    pub limit: u64,
    /// Usage accrued, in mint base units.
    pub used: u64,
    /// Usage actually transferred to the treasury so far.
    pub paid: u64,
    pub bump: u8,
}

/// The payer's SPL token account, as much of it as this library needs.
#[derive(Debug, Clone, Copy, PartialEq, Eq)]
pub struct TokenAccount {
    pub mint: Address,
    pub owner: Address,
    pub amount: u64,
    /// Whom the owner has approved, if anyone. SPL clears this when the
    /// approved amount reaches zero.
    pub delegate: Option<Address>,
    /// How much that delegate may still move.
    pub delegated_amount: u64,
}

/// `a - b`, or zero when `b` is larger.
pub open spec fn saturating_sub(a: u64, b: u64) -> u64 {
    if a >= b {
        (a - b) as u64
    } else {
        0
    }
}

impl Contract {
    /// Usage accrued but not yet transferred: `used - paid`, never below
    /// zero.
    pub fn unpaid(&self) -> (r: u64)
        ensures
            r == saturating_sub(self.used, self.paid),
    {
        self.used.saturating_sub(self.paid)
    }

    /// What the delegate allowance still has to cover under the current
    /// limit: `limit - paid`, never below zero.
    pub fn outstanding(&self) -> (r: u64)
        ensures
            r == saturating_sub(self.limit, self.paid),
    {
        self.limit.saturating_sub(self.paid)
    }
}

// ---------------------------------------------------------------------------
// The layouts.

/// The little-endian u32 at `at`.
pub open spec fn le_u32(b: Seq<u8>, at: int) -> int {
    b[at] + 256 * b[at + 1] + 65536 * b[at + 2] + 16777216 * b[at + 3]
}

/// The little-endian u64 at `at`.
pub open spec fn le_u64(b: Seq<u8>, at: int) -> int {
    b[at] + 256 * b[at + 1] + 65536 * b[at + 2] + 16777216 * b[at + 3] + 4294967296 * b[at
        + 4] + 1099511627776 * b[at + 5] + 281474976710656 * b[at + 6] + 72057594037927936 * b[at
        + 7]
}

/// The 32-byte address at `at`.
pub open spec fn address_at(b: Seq<u8>, at: int) -> Seq<u8> {
    b.subrange(at, at + 32)
}

/// What every Anchor account must pass before any field is read: its
/// exact length, then its discriminator.
pub open spec fn anchor_check(data: Seq<u8>, disc: Seq<u8>, len: nat) -> Option<DecodeError> {
    if data.len() != len {
        Some(DecodeError::WrongLength { expected: len as usize, got: data.len() as usize })
    } else if data.take(8) != disc {
        Some(DecodeError::WrongDiscriminator)
    } else {
        None
    }
}

/// `s` is what a `Site` account with these bytes holds.
pub open spec fn site_layout(data: Seq<u8>, s: Site) -> bool {
    &&& s.authority@ == address_at(data, 8)
    &&& s.mint@ == address_at(data, 40)
    &&& s.treasury@ == address_at(data, 72)
    &&& s.page_price == le_u64(data, 104)
    &&& s.collection_threshold == le_u64(data, 112)
    &&& s.min_limit == le_u64(data, 120)
    &&& s.bump == data[128]
}

/// `c` is what a `Contract` account with these bytes holds.
pub open spec fn contract_layout(data: Seq<u8>, c: Contract) -> bool {
    &&& c.site@ == address_at(data, 8)
    &&& c.payer@ == address_at(data, 40)
    &&& c.limit == le_u64(data, 72)
    &&& c.used == le_u64(data, 80)
    &&& c.paid == le_u64(data, 88)
    &&& c.bump == data[96]
}

/// `t` is what an SPL token account with these bytes holds: mint, owner,
/// amount, a 4-byte-tagged optional delegate (present when the tag is one),
/// then, past the state byte and the 12-byte `is_native` option, the
/// delegated amount.
pub open spec fn token_account_layout(data: Seq<u8>, t: TokenAccount) -> bool {
    &&& t.mint@ == address_at(data, 0)
    &&& t.owner@ == address_at(data, 32)
    &&& t.amount == le_u64(data, 64)
    &&& (if le_u32(data, 72) == 1 {
        t.delegate matches Some(d) && d@ == address_at(data, 76)
    } else {
        t.delegate is None
    })
    &&& t.delegated_amount == le_u64(data, 121)
}

// ---------------------------------------------------------------------------
// Reading.

/// Length first, then discriminator. Checking the length up front is what
/// makes every read after it safe without checking again.
fn check(data: &[u8], want: [u8; 8], len: usize) -> (r: Result<(), DecodeError>)
    requires
        len >= 8,
    ensures
        match anchor_check(data@, want@, len as nat) {
            Some(e) => r == Err::<(), DecodeError>(e),
            None => r is Ok,
        },
{
    if data.len() != len {
        return Err(DecodeError::WrongLength { expected: len, got: data.len() });
    }
    let mut i: usize = 0;
    while i < 8
        invariant
            i <= 8 <= data@.len(),
            data@.len() == len,
            forall|j: int| 0 <= j < i ==> data@[j] == want@[j],
        decreases 8 - i,
    {
        if data[i] != want[i] {
            assert(data@.take(8)[i as int] != want@[i as int]);
            assert(data@.take(8) != want@);
            assert(anchor_check(data@, want@, len as nat) == Some(DecodeError::WrongDiscriminator));
            return Err(DecodeError::WrongDiscriminator);
        }
        i = i + 1;
    }
    assert(data@.take(8) =~= want@);
    Ok(())
}

/// Walks a fixed layout.
struct Reader<'a> {
    bytes: &'a [u8],
    at: usize,
}

impl<'a> Reader<'a> {
    /// `at` is where the fields start: 8 for an Anchor account, 0 for an SPL
    /// one, which carries no discriminator.
    fn new(bytes: &'a [u8], at: usize) -> (r: Self)
        ensures
            r.bytes@ == bytes@,
            r.at == at,
    {
        Reader { bytes, at }
    }

    fn skip(&mut self, n: usize)
        requires
            old(self).at + n <= old(self).bytes@.len(),
        ensures
            final(self).bytes@ == old(self).bytes@,
            final(self).at == old(self).at + n,
    {
        let _ = self.bytes.len();
        self.at = self.at + n;
    }

    fn pubkey(&mut self) -> (r: Address)
        requires
            old(self).at + 32 <= old(self).bytes@.len(),
        ensures
            final(self).bytes@ == old(self).bytes@,
            final(self).at == old(self).at + 32,
            r@ == address_at(old(self).bytes@, old(self).at as int),
    {
        let _ = self.bytes.len();
        let mut buf: [u8; 32] = [0u8; 32];
        let mut i: usize = 0;
        while i < 32
            invariant
                i <= 32,
                self.at + 32 <= self.bytes@.len() <= usize::MAX,
                forall|j: int| 0 <= j < i ==> buf@[j] == self.bytes@[self.at + j],
            decreases 32 - i,
        {
            buf[i] = self.bytes[self.at + i];
            i = i + 1;
        }
        let r = Address(buf);
        assert(r@ =~= address_at(self.bytes@, self.at as int));
        self.at = self.at + 32;
        r
    }

    fn u64(&mut self) -> (r: u64)
        requires
            old(self).at + 8 <= old(self).bytes@.len(),
        ensures
            final(self).bytes@ == old(self).bytes@,
            final(self).at == old(self).at + 8,
            r == le_u64(old(self).bytes@, old(self).at as int),
    {
        let b = self.bytes;
        let a = self.at;
        let r = (b[a] as u64) + 256 * (b[a + 1] as u64) + 65536 * (b[a + 2] as u64) + 16777216 * (
        b[a + 3] as u64) + 4294967296 * (b[a + 4] as u64) + 1099511627776 * (b[a + 5] as u64)
            + 281474976710656 * (b[a + 6] as u64) + 72057594037927936 * (b[a + 7] as u64);
        self.at = a + 8;
        r
    }

    fn u32(&mut self) -> (r: u32)
        requires
            old(self).at + 4 <= old(self).bytes@.len(),
        ensures
            final(self).bytes@ == old(self).bytes@,
            final(self).at == old(self).at + 4,
            r == le_u32(old(self).bytes@, old(self).at as int),
    {
        let b = self.bytes;
        let a = self.at;
        let r = (b[a] as u32) + 256 * (b[a + 1] as u32) + 65536 * (b[a + 2] as u32) + 16777216 * (
        b[a + 3] as u32);
        self.at = a + 4;
        r
    }

    fn u8(&mut self) -> (r: u8)
        requires
            old(self).at + 1 <= old(self).bytes@.len(),
        ensures
            final(self).bytes@ == old(self).bytes@,
            final(self).at == old(self).at + 1,
            r == old(self).bytes@[old(self).at as int],
    {
        let b = self.bytes[self.at];
        self.at = self.at + 1;
        b
    }

    /// A 4-byte-tagged optional address, the way SPL Token writes `COption`.
    fn coption_pubkey(&mut self) -> (r: Option<Address>)
        requires
            old(self).at + 36 <= old(self).bytes@.len(),
        ensures
            final(self).bytes@ == old(self).bytes@,
            final(self).at == old(self).at + 36,
            if le_u32(old(self).bytes@, old(self).at as int) == 1 {
                r matches Some(d) && d@ == address_at(old(self).bytes@, old(self).at + 4)
            } else {
                r is None
            },
    {
        let tag = self.u32();
        let key = self.pubkey();
        if tag == 1 {
            Some(key)
        } else {
            None
        }
    }
}

impl Site {
    /// Decode a `Site` account: exactly `SITE_LEN` bytes, starting with the
    /// `Site` discriminator.
    pub fn decode(data: &[u8]) -> (r: Result<Site, DecodeError>)
        ensures
            match anchor_check(data@, discriminator::SITE@, SITE_LEN as nat) {
                Some(e) => r == Err::<Site, DecodeError>(e),
                None => r matches Ok(s) && site_layout(data@, s),
            },
    {
        check(data, discriminator::SITE, SITE_LEN)?;
        let mut r = Reader::new(data, 8);
        let authority = r.pubkey();
        let mint = r.pubkey();
        let treasury = r.pubkey();
        let page_price = r.u64();
        let collection_threshold = r.u64();
        let min_limit = r.u64();
        let bump = r.u8();
        Ok(Site { authority, mint, treasury, page_price, collection_threshold, min_limit, bump })
    }
}

impl Contract {
    /// Decode a `Contract` account: exactly `CONTRACT_LEN` bytes, starting
    /// with the `Contract` discriminator.
    pub fn decode(data: &[u8]) -> (r: Result<Contract, DecodeError>)
        ensures
            match anchor_check(data@, discriminator::CONTRACT@, CONTRACT_LEN as nat) {
                Some(e) => r == Err::<Contract, DecodeError>(e),
                None => r matches Ok(c) && contract_layout(data@, c),
            },
    {
        check(data, discriminator::CONTRACT, CONTRACT_LEN)?;
        let mut r = Reader::new(data, 8);
        let site = r.pubkey();
        let payer = r.pubkey();
        let limit = r.u64();
        let used = r.u64();
        let paid = r.u64();
        let bump = r.u8();
        Ok(Contract { site, payer, limit, used, paid, bump })
    }
}

/// The mint's decimals, one byte at a fixed offset. Accepts anything at
/// least mint-sized, so a Token-2022 mint carrying extensions decodes too.
pub fn mint_decimals(mint_account_data: &[u8]) -> (r: Result<u8, DecodeError>)
    ensures
        mint_account_data@.len() < MINT_MIN_LEN ==> r == Err::<u8, DecodeError>(
            DecodeError::WrongLength {
                expected: MINT_MIN_LEN,
                got: mint_account_data@.len() as usize,
            },
        ),
        mint_account_data@.len() >= MINT_MIN_LEN ==> r == Ok::<u8, DecodeError>(
            mint_account_data@[MINT_DECIMALS_OFFSET as int],
        ),
{
    if mint_account_data.len() < MINT_MIN_LEN {
        return Err(
            DecodeError::WrongLength { expected: MINT_MIN_LEN, got: mint_account_data.len() },
        );
    }
    Ok(mint_account_data[MINT_DECIMALS_OFFSET])
}

impl TokenAccount {
    /// Decode an SPL token account. Anything at least `TOKEN_ACCOUNT_LEN`
    /// bytes long decodes, since Token-2022 appends extensions past the base
    /// layout.
    pub fn decode(data: &[u8]) -> (r: Result<TokenAccount, DecodeError>)
        ensures
            data@.len() < TOKEN_ACCOUNT_LEN ==> r == Err::<TokenAccount, DecodeError>(
                DecodeError::WrongLength {
                    expected: TOKEN_ACCOUNT_LEN,
                    got: data@.len() as usize,
                },
            ),
            data@.len() >= TOKEN_ACCOUNT_LEN ==> (r matches Ok(t) && token_account_layout(
                data@,
                t,
            )),
    {
        if data.len() < TOKEN_ACCOUNT_LEN {
            return Err(DecodeError::WrongLength { expected: TOKEN_ACCOUNT_LEN, got: data.len() });
        }
        let mut r = Reader::new(data, 0);
        let mint = r.pubkey();
        let owner = r.pubkey();
        let amount = r.u64();
        let delegate = r.coption_pubkey();
        r.skip(1);  // state
        r.skip(12);  // is_native: COption<u64>
        let delegated_amount = r.u64();
        Ok(TokenAccount { mint, owner, amount, delegate, delegated_amount })
    }
}

/// What [`DecodeError::message`] says.
pub open spec fn decode_error_text(e: DecodeError) -> Seq<char> {
    match e {
        DecodeError::WrongDiscriminator => "account discriminator does not match"@,
        DecodeError::WrongLength { expected, got } => "account should be "@ + decimal(
            expected as nat,
        ) + " bytes, got "@ + decimal(got as nat),
    }
}

impl DecodeError {
    /// The error in words.
    pub fn message(&self) -> (r: String)
        ensures
            r@ == decode_error_text(*self),
    {
        let mut out = String::new();
        match self {
            DecodeError::WrongDiscriminator => push_str(
                &mut out,
                "account discriminator does not match",
            ),
            DecodeError::WrongLength { expected, got } => {
                push_str(&mut out, "account should be ");
                push_decimal(&mut out, *expected as u64);
                push_str(&mut out, " bytes, got ");
                push_decimal(&mut out, *got as u64);
            },
        }
        out
    }
}

} // verus!
