//! Instruction builders. Pure functions over addresses and amounts; no
//! I/O, no signing. Account order in every builder follows the account
//! list the matching instruction of the program declares, which is what
//! Anchor expects.
//!
//! Each builder exists twice: as a method on [`Program`], which supplies
//! both the deployment's address and the site's token program, and as a
//! free function against the canonical deployment on SPL Token.
//!
//! A builder that names a program-derived account returns `None` in the
//! improbable case that the account cannot be derived. Beside each such
//! builder stands its `_at` form, which takes the derived account instead
//! of deriving it and builds the same instruction.

use vstd::prelude::*;

use borsh::BorshSerialize;

use crate::ids::{system_program_id, Address};
use crate::pda::{contract_pda, site_pda};
use crate::program::{canonical_program, Program};

pub mod discriminator;

verus! {

/// One account an instruction touches, and how.
#[derive(Debug, Clone, Copy, PartialEq, Eq)]
pub struct AccountMeta {
    pub pubkey: Address,
    pub is_signer: bool,
    pub is_writable: bool,
}

impl View for AccountMeta {
    type V = (Seq<u8>, bool, bool);

    open spec fn view(&self) -> (Seq<u8>, bool, bool) {
        (self.pubkey@, self.is_signer, self.is_writable)
    }
}

impl AccountMeta {
    /// An account the instruction writes.
    pub fn new(pubkey: Address, is_signer: bool) -> (r: AccountMeta)
        ensures
            r == (AccountMeta { pubkey, is_signer, is_writable: true }),
    {
        AccountMeta { pubkey, is_signer, is_writable: true }
    }

    /// An account the instruction only reads.
    pub fn new_readonly(pubkey: Address, is_signer: bool) -> (r: AccountMeta)
        ensures
            r == (AccountMeta { pubkey, is_signer, is_writable: false }),
    {
        AccountMeta { pubkey, is_signer, is_writable: false }
    }
}

/// A call of one program: which program, which accounts, what data.
#[derive(Debug, Clone, PartialEq, Eq)]
pub struct Instruction {
    pub program_id: Address,
    pub accounts: Vec<AccountMeta>,
    pub data: Vec<u8>,
}

/// An instruction as plain values: the program's address, each account as
/// its address with its signer and writable flags, and the data.
#[verifier::ext_equal]
pub struct InstructionView {
    pub program_id: Seq<u8>,
    pub accounts: Seq<(Seq<u8>, bool, bool)>,
    pub data: Seq<u8>,
}

impl View for Instruction {
    type V = InstructionView;

    open spec fn view(&self) -> InstructionView {
        InstructionView {
            program_id: self.program_id@,
            accounts: self.accounts@.map_values(|m: AccountMeta| m@),
            data: self.data@,
        }
    }
}

/// The eight little-endian bytes of `x`.
pub open spec fn le_bytes_u64(x: u64) -> Seq<u8> {
    seq![
        (x % 256) as u8,
        ((x / 256) % 256) as u8,
        ((x / 65536) % 256) as u8,
        ((x / 16777216) % 256) as u8,
        ((x / 4294967296) % 256) as u8,
        ((x / 1099511627776) % 256) as u8,
        ((x / 281474976710656) % 256) as u8,
        ((x / 72057594037927936) % 256) as u8,
    ]
}

/// The four little-endian bytes of `x`.
pub open spec fn le_bytes_u32(x: u32) -> Seq<u8> {
    seq![
        (x % 256) as u8,
        ((x / 256) % 256) as u8,
        ((x / 65536) % 256) as u8,
        ((x / 16777216) % 256) as u8,
    ]
}

/// SPL Token's instruction tag for `ApproveChecked`.
pub const TAG_APPROVE_CHECKED: u8 = 13;

/// SPL Token's instruction tag for `Revoke`.
pub const TAG_REVOKE: u8 = 5;

/// `<u64 as BorshSerialize>::serialize` into a byte vector: borsh writes an
/// integer as its little-endian bytes, appended to what the writer holds.
/// Writing into a `Vec` cannot fail, so the error it could report never
/// arises and is not looked at.
#[verifier::external_body]
fn borsh_u64(value: u64, out: &mut Vec<u8>)
    ensures
        final(out)@ == old(out)@ + le_bytes_u64(value),
{
    let _ = value.serialize(out);
}

/// `<u32 as BorshSerialize>::serialize` into a byte vector, as above: the
/// four little-endian bytes, appended.
#[verifier::external_body]
fn borsh_u32(value: u32, out: &mut Vec<u8>)
    ensures
        final(out)@ == old(out)@ + le_bytes_u32(value),
{
    let _ = value.serialize(out);
}

/// Instruction data that starts with the discriminator `disc`.
fn data(disc: &[u8; 8]) -> (r: Vec<u8>)
    ensures
        r@ == disc@,
{
    vstd::slice::slice_to_vec(disc)
}

/// Append the little-endian bytes of `x`, the way SPL Token reads an amount.
fn push_le_u64(out: &mut Vec<u8>, x: u64)
    ensures
        final(out)@ == old(out)@ + le_bytes_u64(x),
{
    out.push((x % 256) as u8);
    out.push(((x / 256) % 256) as u8);
    out.push(((x / 65536) % 256) as u8);
    out.push(((x / 16777216) % 256) as u8);
    out.push(((x / 4294967296) % 256) as u8);
    out.push(((x / 1099511627776) % 256) as u8);
    out.push(((x / 281474976710656) % 256) as u8);
    out.push(((x / 72057594037927936) % 256) as u8);
    assert(out@ =~= old(out)@ + le_bytes_u64(x));
}

// ---------------------------------------------------------------------------
// What each builder builds, given the derived account it names.

/// `initialize_site`, with the site account at `site`.
pub open spec fn initialize_site_view(
    p: Program,
    authority: Address,
    mint: Address,
    treasury: Address,
    page_price: u64,
    collection_threshold: u64,
    min_limit: u64,
    site: Seq<u8>,
) -> InstructionView {
    InstructionView {
        program_id: p.deployment()@,
        accounts: seq![
            (authority@, true, true),
            (site, false, true),
            (mint@, false, false),
            (treasury@, false, false),
            (system_program_id()@, false, false),
        ],
        data: discriminator::INITIALIZE_SITE@ + le_bytes_u64(page_price) + le_bytes_u64(
            collection_threshold,
        ) + le_bytes_u64(min_limit),
    }
}

/// `open_contract`, with the contract account at `contract`.
pub open spec fn open_contract_view(
    p: Program,
    site: Address,
    payer: Address,
    payer_token_account: Address,
    limit: u64,
    contract: Seq<u8>,
) -> InstructionView {
    InstructionView {
        program_id: p.deployment()@,
        accounts: seq![
            (payer@, true, true),
            (site@, false, false),
            (contract, false, true),
            (payer_token_account@, false, false),
            (system_program_id()@, false, false),
        ],
        data: discriminator::OPEN_CONTRACT@ + le_bytes_u64(limit),
    }
}

/// `meter_and_settle`, with the contract account at `contract`. The token
/// program is an account here, not the program called: the metering
/// program calls into it.
pub open spec fn meter_and_settle_view(
    p: Program,
    site: Address,
    authority: Address,
    payer: Address,
    payer_token_account: Address,
    treasury: Address,
    mint: Address,
    page_views: u32,
    contract: Seq<u8>,
) -> InstructionView {
    InstructionView {
        program_id: p.deployment()@,
        accounts: seq![
            (site@, false, false),
            (authority@, true, false),
            (payer@, false, false),
            (contract, false, true),
            (payer_token_account@, false, true),
            (treasury@, false, true),
            (mint@, false, false),
            (p.token_program_key()@, false, false),
        ],
        data: discriminator::METER_AND_SETTLE@ + le_bytes_u32(page_views),
    }
}

/// `renew_contract`, with the contract account at `contract`.
pub open spec fn renew_contract_view(
    p: Program,
    site: Address,
    payer: Address,
    payer_token_account: Address,
    new_limit: u64,
    contract: Seq<u8>,
) -> InstructionView {
    InstructionView {
        program_id: p.deployment()@,
        accounts: seq![
            (payer@, true, true),
            (site@, false, false),
            (contract, false, true),
            (payer_token_account@, false, false),
            (system_program_id()@, false, false),
        ],
        data: discriminator::RENEW_CONTRACT@ + le_bytes_u64(new_limit),
    }
}

/// `close_contract`, with the contract account at `contract`.
pub open spec fn close_contract_view(p: Program, site: Address, payer: Address, contract: Seq<u8>) -> InstructionView {
    InstructionView {
        program_id: p.deployment()@,
        accounts: seq![(payer@, true, true), (site@, false, false), (contract, false, true)],
        data: discriminator::CLOSE_CONTRACT@,
    }
}

/// SPL Token's `ApproveChecked`, naming the contract account at `contract`
/// as delegate.
pub open spec fn approve_checked_view(
    p: Program,
    payer_token_account: Address,
    mint: Address,
    payer: Address,
    amount: u64,
    decimals: u8,
    contract: Seq<u8>,
) -> InstructionView {
    InstructionView {
        program_id: p.token_program_key()@,
        accounts: seq![
            (payer_token_account@, false, true),
            (mint@, false, false),
            (contract, false, false),
            (payer@, true, false),
        ],
        data: seq![TAG_APPROVE_CHECKED] + le_bytes_u64(amount) + seq![decimals],
    }
}

/// SPL Token's `Revoke`.
pub open spec fn revoke_view(p: Program, payer_token_account: Address, payer: Address) -> InstructionView {
    InstructionView {
        program_id: p.token_program_key()@,
        accounts: seq![(payer_token_account@, false, true), (payer@, true, false)],
        data: seq![TAG_REVOKE],
    }
}

/// Every instruction goes where the handle says: the program's own
/// instructions to its deployment, the SPL ones to its token program. The
/// token program is an account of `meter_and_settle`, never the program it
/// calls, and an approval delegates to the contract account it was built
/// for.
pub proof fn lemma_instructions_go_where_the_handle_says(
    p: Program,
    site: Address,
    authority: Address,
    payer: Address,
    payer_token_account: Address,
    treasury: Address,
    mint: Address,
    amount: u64,
    decimals: u8,
    page_views: u32,
    contract: Seq<u8>,
)
    ensures
        open_contract_view(p, site, payer, payer_token_account, amount, contract).program_id
            == p.deployment()@,
        renew_contract_view(p, site, payer, payer_token_account, amount, contract).program_id
            == p.deployment()@,
        close_contract_view(p, site, payer, contract).program_id == p.deployment()@,
        meter_and_settle_view(
            p,
            site,
            authority,
            payer,
            payer_token_account,
            treasury,
            mint,
            page_views,
            contract,
        ).program_id == p.deployment()@,
        meter_and_settle_view(
            p,
            site,
            authority,
            payer,
            payer_token_account,
            treasury,
            mint,
            page_views,
            contract,
        ).accounts[7] == (p.token_program_key()@, false, false),
        approve_checked_view(
            p,
            payer_token_account,
            mint,
            payer,
            amount,
            decimals,
            contract,
        ).program_id == p.token_program_key()@,
        approve_checked_view(
            p,
            payer_token_account,
            mint,
            payer,
            amount,
            decimals,
            contract,
        ).accounts[2].0 == contract,
        revoke_view(p, payer_token_account, payer).program_id == p.token_program_key()@,
{
}

/// Changing the token program changes only what goes to it: for two
/// handles on one deployment, every instruction of the metering program but
/// `meter_and_settle` is the same, `meter_and_settle` differs only in its
/// token-program account, and the SPL instructions carry the same accounts
/// and data.
pub proof fn lemma_the_token_program_moves_only_the_token_instructions(
    p: Program,
    q: Program,
    site: Address,
    authority: Address,
    payer: Address,
    payer_token_account: Address,
    treasury: Address,
    mint: Address,
    amount: u64,
    decimals: u8,
    page_views: u32,
    contract: Seq<u8>,
)
    requires
        p.deployment() == q.deployment(),
    ensures
        open_contract_view(p, site, payer, payer_token_account, amount, contract)
            == open_contract_view(q, site, payer, payer_token_account, amount, contract),
        renew_contract_view(p, site, payer, payer_token_account, amount, contract)
            == renew_contract_view(q, site, payer, payer_token_account, amount, contract),
        close_contract_view(p, site, payer, contract) == close_contract_view(
            q,
            site,
            payer,
            contract,
        ),
        meter_and_settle_view(
            p,
            site,
            authority,
            payer,
            payer_token_account,
            treasury,
            mint,
            page_views,
            contract,
        ).data == meter_and_settle_view(
            q,
            site,
            authority,
            payer,
            payer_token_account,
            treasury,
            mint,
            page_views,
            contract,
        ).data,
        meter_and_settle_view(
            p,
            site,
            authority,
            payer,
            payer_token_account,
            treasury,
            mint,
            page_views,
            contract,
        ).accounts.take(7) == meter_and_settle_view(
            q,
            site,
            authority,
            payer,
            payer_token_account,
            treasury,
            mint,
            page_views,
            contract,
        ).accounts.take(7),
        approve_checked_view(p, payer_token_account, mint, payer, amount, decimals, contract).data
            == approve_checked_view(
            q,
            payer_token_account,
            mint,
            payer,
            amount,
            decimals,
            contract,
        ).data,
        approve_checked_view(
            p,
            payer_token_account,
            mint,
            payer,
            amount,
            decimals,
            contract,
        ).accounts == approve_checked_view(
            q,
            payer_token_account,
            mint,
            payer,
            amount,
            decimals,
            contract,
        ).accounts,
{
    assert(meter_and_settle_view(
        p,
        site,
        authority,
        payer,
        payer_token_account,
        treasury,
        mint,
        page_views,
        contract,
    ).accounts.take(7) =~= meter_and_settle_view(
        q,
        site,
        authority,
        payer,
        payer_token_account,
        treasury,
        mint,
        page_views,
        contract,
    ).accounts.take(7));
}

impl Program {
    /// [`Program::initialize_site`], given the site account it derives.
    pub fn initialize_site_at(
        &self,
        site: &Address,
        authority: &Address,
        mint: &Address,
        treasury: &Address,
        page_price: u64,
        collection_threshold: u64,
        min_limit: u64,
    ) -> (r: Instruction)
        ensures
            r@ == initialize_site_view(
                *self,
                *authority,
                *mint,
                *treasury,
                page_price,
                collection_threshold,
                min_limit,
                site@,
            ),
    {
        let mut bytes = data(&discriminator::INITIALIZE_SITE);
        borsh_u64(page_price, &mut bytes);
        borsh_u64(collection_threshold, &mut bytes);
        borsh_u64(min_limit, &mut bytes);
        let ix = Instruction {
            program_id: self.id(),
            accounts: vec![
                AccountMeta::new(*authority, true),
                AccountMeta::new(*site, false),
                AccountMeta::new_readonly(*mint, false),
                AccountMeta::new_readonly(*treasury, false),
                AccountMeta::new_readonly(system_program_id(), false),
            ],
            data: bytes,
        };
        assert(ix@ =~= initialize_site_view(
            *self,
            *authority,
            *mint,
            *treasury,
            page_price,
            collection_threshold,
            min_limit,
            site@,
        ));
        ix
    }

    /// Stand up a site's pricing; signed by the site's authority.
    pub fn initialize_site(
        &self,
        authority: &Address,
        mint: &Address,
        treasury: &Address,
        page_price: u64,
        collection_threshold: u64,
        min_limit: u64,
    ) -> (r: Option<Instruction>)
        ensures
            match site_pda(*self, *authority) {
                Some((site, _)) => r matches Some(ix) && ix@ == initialize_site_view(
                    *self,
                    *authority,
                    *mint,
                    *treasury,
                    page_price,
                    collection_threshold,
                    min_limit,
                    site,
                ),
                None => r is None,
            },
    {
        match self.site_address(authority) {
            Some((site, _)) => Some(
                self.initialize_site_at(
                    &site,
                    authority,
                    mint,
                    treasury,
                    page_price,
                    collection_threshold,
                    min_limit,
                ),
            ),
            None => None,
        }
    }

    /// [`Program::open_contract`], given the contract account it derives.
    pub fn open_contract_at(
        &self,
        contract: &Address,
        site: &Address,
        payer: &Address,
        payer_token_account: &Address,
        limit: u64,
    ) -> (r: Instruction)
        ensures
            r@ == open_contract_view(*self, *site, *payer, *payer_token_account, limit, contract@),
    {
        let mut bytes = data(&discriminator::OPEN_CONTRACT);
        borsh_u64(limit, &mut bytes);
        let ix = Instruction {
            program_id: self.id(),
            accounts: vec![
                AccountMeta::new(*payer, true),
                AccountMeta::new_readonly(*site, false),
                AccountMeta::new(*contract, false),
                AccountMeta::new_readonly(*payer_token_account, false),
                AccountMeta::new_readonly(system_program_id(), false),
            ],
            data: bytes,
        };
        assert(ix@ =~= open_contract_view(
            *self,
            *site,
            *payer,
            *payer_token_account,
            limit,
            contract@,
        ));
        ix
    }

    /// Open a contract at `limit`. Must be preceded in the same transaction
    /// by [`Program::approve_checked`] naming the contract account as
    /// delegate for at least `limit`.
    pub fn open_contract(
        &self,
        site: &Address,
        payer: &Address,
        payer_token_account: &Address,
        limit: u64,
    ) -> (r: Option<Instruction>)
        ensures
            match contract_pda(*self, *site, *payer) {
                Some((contract, _)) => r matches Some(ix) && ix@ == open_contract_view(
                    *self,
                    *site,
                    *payer,
                    *payer_token_account,
                    limit,
                    contract,
                ),
                None => r is None,
            },
    {
        match self.contract_address(site, payer) {
            Some((contract, _)) => Some(
                self.open_contract_at(&contract, site, payer, payer_token_account, limit),
            ),
            None => None,
        }
    }

    /// [`Program::meter_and_settle`], given the contract account it derives.
    pub fn meter_and_settle_at(
        &self,
        contract: &Address,
        site: &Address,
        authority: &Address,
        payer: &Address,
        payer_token_account: &Address,
        treasury: &Address,
        mint: &Address,
        page_views: u32,
    ) -> (r: Instruction)
        ensures
            r@ == meter_and_settle_view(
                *self,
                *site,
                *authority,
                *payer,
                *payer_token_account,
                *treasury,
                *mint,
                page_views,
                contract@,
            ),
    {
        let mut bytes = data(&discriminator::METER_AND_SETTLE);
        borsh_u32(page_views, &mut bytes);
        let ix = Instruction {
            program_id: self.id(),
            accounts: vec![
                AccountMeta::new_readonly(*site, false),
                AccountMeta::new_readonly(*authority, true),
                AccountMeta::new_readonly(*payer, false),
                AccountMeta::new(*contract, false),
                AccountMeta::new(*payer_token_account, false),
                AccountMeta::new(*treasury, false),
                AccountMeta::new_readonly(*mint, false),
                AccountMeta::new_readonly(self.token_program(), false),
            ],
            data: bytes,
        };
        assert(ix@ =~= meter_and_settle_view(
            *self,
            *site,
            *authority,
            *payer,
            *payer_token_account,
            *treasury,
            *mint,
            page_views,
            contract@,
        ));
        ix
    }

    /// Meter `page_views`; signed by the site authority. The payer is
    /// absent: the transfer, if the threshold is crossed, rides on the
    /// delegate approval.
    pub fn meter_and_settle(
        &self,
        site: &Address,
        authority: &Address,
        payer: &Address,
        payer_token_account: &Address,
        treasury: &Address,
        mint: &Address,
        page_views: u32,
    ) -> (r: Option<Instruction>)
        ensures
            match contract_pda(*self, *site, *payer) {
                Some((contract, _)) => r matches Some(ix) && ix@ == meter_and_settle_view(
                    *self,
                    *site,
                    *authority,
                    *payer,
                    *payer_token_account,
                    *treasury,
                    *mint,
                    page_views,
                    contract,
                ),
                None => r is None,
            },
    {
        match self.contract_address(site, payer) {
            Some((contract, _)) => Some(
                self.meter_and_settle_at(
                    &contract,
                    site,
                    authority,
                    payer,
                    payer_token_account,
                    treasury,
                    mint,
                    page_views,
                ),
            ),
            None => None,
        }
    }

    /// [`Program::renew_contract`], given the contract account it derives.
    pub fn renew_contract_at(
        &self,
        contract: &Address,
        site: &Address,
        payer: &Address,
        payer_token_account: &Address,
        new_limit: u64,
    ) -> (r: Instruction)
        ensures
            r@ == renew_contract_view(
                *self,
                *site,
                *payer,
                *payer_token_account,
                new_limit,
                contract@,
            ),
    {
        let mut bytes = data(&discriminator::RENEW_CONTRACT);
        borsh_u64(new_limit, &mut bytes);
        let ix = Instruction {
            program_id: self.id(),
            accounts: vec![
                AccountMeta::new(*payer, true),
                AccountMeta::new_readonly(*site, false),
                AccountMeta::new(*contract, false),
                AccountMeta::new_readonly(*payer_token_account, false),
                AccountMeta::new_readonly(system_program_id(), false),
            ],
            data: bytes,
        };
        assert(ix@ =~= renew_contract_view(
            *self,
            *site,
            *payer,
            *payer_token_account,
            new_limit,
            contract@,
        ));
        ix
    }

    /// Renew at `new_limit`. Must be preceded by
    /// [`Program::approve_checked`] for at least `new_limit`.
    pub fn renew_contract(
        &self,
        site: &Address,
        payer: &Address,
        payer_token_account: &Address,
        new_limit: u64,
    ) -> (r: Option<Instruction>)
        ensures
            match contract_pda(*self, *site, *payer) {
                Some((contract, _)) => r matches Some(ix) && ix@ == renew_contract_view(
                    *self,
                    *site,
                    *payer,
                    *payer_token_account,
                    new_limit,
                    contract,
                ),
                None => r is None,
            },
    {
        match self.contract_address(site, payer) {
            Some((contract, _)) => Some(
                self.renew_contract_at(&contract, site, payer, payer_token_account, new_limit),
            ),
            None => None,
        }
    }

    /// [`Program::close_contract`], given the contract account it derives.
    pub fn close_contract_at(&self, contract: &Address, site: &Address, payer: &Address) -> (r:
        Instruction)
        ensures
            r@ == close_contract_view(*self, *site, *payer, contract@),
    {
        let ix = Instruction {
            program_id: self.id(),
            accounts: vec![
                AccountMeta::new(*payer, true),
                AccountMeta::new_readonly(*site, false),
                AccountMeta::new(*contract, false),
            ],
            data: data(&discriminator::CLOSE_CONTRACT),
        };
        assert(ix@ =~= close_contract_view(*self, *site, *payer, contract@));
        ix
    }

    /// Close the payer's contract with `site`.
    pub fn close_contract(&self, site: &Address, payer: &Address) -> (r: Option<Instruction>)
        ensures
            match contract_pda(*self, *site, *payer) {
                Some((contract, _)) => r matches Some(ix) && ix@ == close_contract_view(
                    *self,
                    *site,
                    *payer,
                    contract,
                ),
                None => r is None,
            },
    {
        match self.contract_address(site, payer) {
            Some((contract, _)) => Some(self.close_contract_at(&contract, site, payer)),
            None => None,
        }
    }

    /// [`Program::approve_checked`], given the contract account it derives.
    pub fn approve_checked_at(
        &self,
        contract: &Address,
        payer_token_account: &Address,
        mint: &Address,
        payer: &Address,
        amount: u64,
        decimals: u8,
    ) -> (r: Instruction)
        ensures
            r@ == approve_checked_view(
                *self,
                *payer_token_account,
                *mint,
                *payer,
                amount,
                decimals,
                contract@,
            ),
    {
        let mut bytes: Vec<u8> = Vec::new();
        bytes.push(TAG_APPROVE_CHECKED);
        push_le_u64(&mut bytes, amount);
        bytes.push(decimals);
        let ix = Instruction {
            program_id: self.token_program(),
            accounts: vec![
                AccountMeta::new(*payer_token_account, false),
                AccountMeta::new_readonly(*mint, false),
                AccountMeta::new_readonly(*contract, false),
                AccountMeta::new_readonly(*payer, true),
            ],
            data: bytes,
        };
        assert(ix@ =~= approve_checked_view(
            *self,
            *payer_token_account,
            *mint,
            *payer,
            amount,
            decimals,
            contract@,
        ));
        ix
    }

    /// The authorization step: let the contract account move up to `amount`
    /// of the payer's tokens. `approve` replaces any previous allowance
    /// rather than adding to it, so renewal passes the new limit outright.
    ///
    /// An SPL Token instruction on both counts the handle carries: it goes
    /// to this handle's token program, and the delegate it names is this
    /// deployment's contract account.
    pub fn approve_checked(
        &self,
        payer_token_account: &Address,
        mint: &Address,
        payer: &Address,
        site: &Address,
        amount: u64,
        decimals: u8,
    ) -> (r: Option<Instruction>)
        ensures
            match contract_pda(*self, *site, *payer) {
                Some((contract, _)) => r matches Some(ix) && ix@ == approve_checked_view(
                    *self,
                    *payer_token_account,
                    *mint,
                    *payer,
                    amount,
                    decimals,
                    contract,
                ),
                None => r is None,
            },
    {
        match self.contract_address(site, payer) {
            Some((contract, _)) => Some(
                self.approve_checked_at(&contract, payer_token_account, mint, payer, amount, decimals),
            ),
            None => None,
        }
    }

    /// Withdraw the authorization; worth pairing with
    /// [`Program::close_contract`]. It names only the token account and its
    /// owner, but must go to the right token program, which is on the
    /// handle.
    pub fn revoke(&self, payer_token_account: &Address, payer: &Address) -> (r: Instruction)
        ensures
            r@ == revoke_view(*self, *payer_token_account, *payer),
    {
        let ix = Instruction {
            program_id: self.token_program(),
            accounts: vec![
                AccountMeta::new(*payer_token_account, false),
                AccountMeta::new_readonly(*payer, true),
            ],
            data: vec![TAG_REVOKE],
        };
        assert(ix@ =~= revoke_view(*self, *payer_token_account, *payer));
        ix
    }
}

// ---------------------------------------------------------------------------
// The canonical deployment, on SPL Token.

/// [`Program::initialize_site`] against the canonical deployment.
pub fn initialize_site(
    authority: &Address,
    mint: &Address,
    treasury: &Address,
    page_price: u64,
    collection_threshold: u64,
    min_limit: u64,
) -> (r: Option<Instruction>)
    ensures
        match site_pda(canonical_program(), *authority) {
            Some((site, _)) => r matches Some(ix) && ix@ == initialize_site_view(
                canonical_program(),
                *authority,
                *mint,
                *treasury,
                page_price,
                collection_threshold,
                min_limit,
                site,
            ),
            None => r is None,
        },
{
    Program::canonical().initialize_site(
        authority,
        mint,
        treasury,
        page_price,
        collection_threshold,
        min_limit,
    )
}

/// [`Program::open_contract`] against the canonical deployment.
pub fn open_contract(site: &Address, payer: &Address, payer_token_account: &Address, limit: u64) -> (r:
    Option<Instruction>)
    ensures
        match contract_pda(canonical_program(), *site, *payer) {
            Some((contract, _)) => r matches Some(ix) && ix@ == open_contract_view(
                canonical_program(),
                *site,
                *payer,
                *payer_token_account,
                limit,
                contract,
            ),
            None => r is None,
        },
{
    Program::canonical().open_contract(site, payer, payer_token_account, limit)
}

/// [`Program::meter_and_settle`] against the canonical deployment.
pub fn meter_and_settle(
    site: &Address,
    authority: &Address,
    payer: &Address,
    payer_token_account: &Address,
    treasury: &Address,
    mint: &Address,
    page_views: u32,
) -> (r: Option<Instruction>)
    ensures
        match contract_pda(canonical_program(), *site, *payer) {
            Some((contract, _)) => r matches Some(ix) && ix@ == meter_and_settle_view(
                canonical_program(),
                *site,
                *authority,
                *payer,
                *payer_token_account,
                *treasury,
                *mint,
                page_views,
                contract,
            ),
            None => r is None,
        },
{
    Program::canonical().meter_and_settle(
        site,
        authority,
        payer,
        payer_token_account,
        treasury,
        mint,
        page_views,
    )
}

/// [`Program::renew_contract`] against the canonical deployment.
pub fn renew_contract(
    site: &Address,
    payer: &Address,
    payer_token_account: &Address,
    new_limit: u64,
) -> (r: Option<Instruction>)
    ensures
        match contract_pda(canonical_program(), *site, *payer) {
            Some((contract, _)) => r matches Some(ix) && ix@ == renew_contract_view(
                canonical_program(),
                *site,
                *payer,
                *payer_token_account,
                new_limit,
                contract,
            ),
            None => r is None,
        },
{
    Program::canonical().renew_contract(site, payer, payer_token_account, new_limit)
}

/// [`Program::close_contract`] against the canonical deployment.
pub fn close_contract(site: &Address, payer: &Address) -> (r: Option<Instruction>)
    ensures
        match contract_pda(canonical_program(), *site, *payer) {
            Some((contract, _)) => r matches Some(ix) && ix@ == close_contract_view(
                canonical_program(),
                *site,
                *payer,
                contract,
            ),
            None => r is None,
        },
{
    Program::canonical().close_contract(site, payer)
}

/// [`Program::approve_checked`] against the canonical deployment, on SPL
/// Token.
pub fn approve_checked(
    payer_token_account: &Address,
    mint: &Address,
    payer: &Address,
    site: &Address,
    amount: u64,
    decimals: u8,
) -> (r: Option<Instruction>)
    ensures
        match contract_pda(canonical_program(), *site, *payer) {
            Some((contract, _)) => r matches Some(ix) && ix@ == approve_checked_view(
                canonical_program(),
                *payer_token_account,
                *mint,
                *payer,
                amount,
                decimals,
                contract,
            ),
            None => r is None,
        },
{
    Program::canonical().approve_checked(payer_token_account, mint, payer, site, amount, decimals)
}

/// [`Program::revoke`] on SPL Token.
pub fn revoke(payer_token_account: &Address, payer: &Address) -> (r: Instruction)
    ensures
        r@ == revoke_view(canonical_program(), *payer_token_account, *payer),
{
    Program::canonical().revoke(payer_token_account, payer)
}

} // verus!
