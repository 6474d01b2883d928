//! Addresses, and the well-known programs this library builds for.
//!
//! The program addresses are written out as raw bytes rather than decoded
//! from base58 at run time; the base58 form of each is given beside it.

use vstd::prelude::*;

verus! {

/// A 32-byte account address, held as plain bytes.
#[derive(Debug, Clone, Copy, PartialEq, Eq, Hash)]
pub struct Address(pub [u8; 32]);

impl View for Address {
    type V = Seq<u8>;

    open spec fn view(&self) -> Seq<u8> {
        self.0@
    }
}

impl Address {
    /// An address from its 32 bytes.
    pub fn new_from_array(bytes: [u8; 32]) -> (r: Address)
        ensures
            r == Address(bytes),
    {
        Address(bytes)
    }

    /// The 32 bytes of the address.
    pub fn to_bytes(&self) -> (r: [u8; 32])
        ensures
            r == self.0,
    {
        self.0
    }

    /// Byte-for-byte equality.
    pub fn same_as(&self, other: &Address) -> (r: bool)
        ensures
            r == (self@ == other@),
    {
        let mut i: usize = 0;
        while i < 32
            invariant
                i <= 32,
                forall|j: int| 0 <= j < i ==> self@[j] == other@[j],
            decreases 32 - i,
        {
            if self.0[i] != other.0[i] {
                return false;
            }
            i = i + 1;
        }
        assert(self@ =~= other@);
        true
    }
}

/// Two addresses are the same account exactly when their bytes agree.
pub proof fn lemma_address_view_injective(a: Address, b: Address)
    ensures
        (a@ == b@) == (a == b),
{
    if a@ == b@ {
        assert(a.0 =~= b.0);
    }
}

/// The metering program, `F8UDAGgxVTm8Vmh4RmskpMBCFqhRvuTqbDxDCj8UMedL`.
pub const PAY_ON_CHAIN_BYTES: [u8; 32] = [
    209, 237, 114, 220, 251, 248, 34, 98, 239, 245, 233, 171, 238, 156, 185, 220,
    163, 174, 34, 158, 15, 23, 15, 58, 85, 32, 46, 113, 207, 203, 77, 159,
];

/// The system program, `11111111111111111111111111111111`.
pub const SYSTEM_PROGRAM_BYTES: [u8; 32] = [
    0, 0, 0, 0, 0, 0, 0, 0, 0, 0, 0, 0, 0, 0, 0, 0,
    0, 0, 0, 0, 0, 0, 0, 0, 0, 0, 0, 0, 0, 0, 0, 0,
];

/// SPL Token, `TokenkegQfeZyiNwAJbNbGKPFXCWuBvf9Ss623VQ5DA`.
pub const TOKEN_PROGRAM_BYTES: [u8; 32] = [
    6, 221, 246, 225, 215, 101, 161, 147, 217, 203, 225, 70, 206, 235, 121, 172,
    28, 180, 133, 237, 95, 91, 55, 145, 58, 140, 245, 133, 126, 255, 0, 169,
];

/// Token-2022, `TokenzQdBNbLqP5VEhdkAS6EPFLC1PHnBqCXEpPxuEb`.
pub const TOKEN_2022_PROGRAM_BYTES: [u8; 32] = [
    6, 221, 246, 225, 238, 117, 143, 222, 24, 66, 93, 188, 228, 108, 205, 218,
    182, 26, 252, 77, 131, 185, 13, 39, 254, 189, 249, 40, 216, 161, 139, 252,
];

/// The metering program. Must match the address the program is deployed at.
#[verifier::allow_in_spec]
pub fn pay_on_chain_id() -> Address
    returns
        Address(PAY_ON_CHAIN_BYTES),
{
    Address(PAY_ON_CHAIN_BYTES)
}

/// The system program.
#[verifier::allow_in_spec]
pub fn system_program_id() -> Address
    returns
        Address(SYSTEM_PROGRAM_BYTES),
{
    Address(SYSTEM_PROGRAM_BYTES)
}

/// The SPL Token program.
#[verifier::allow_in_spec]
pub fn token_program_id() -> Address
    returns
        Address(TOKEN_PROGRAM_BYTES),
{
    Address(TOKEN_PROGRAM_BYTES)
}

/// The Token-2022 program.
#[verifier::allow_in_spec]
pub fn token_2022_program_id() -> Address
    returns
        Address(TOKEN_2022_PROGRAM_BYTES),
{
    Address(TOKEN_2022_PROGRAM_BYTES)
}

/// The three program addresses the library names are pairwise distinct.
pub proof fn lemma_program_ids_distinct()
    ensures
        pay_on_chain_id()@ != token_program_id()@,
        pay_on_chain_id()@ != token_2022_program_id()@,
        token_program_id()@ != token_2022_program_id()@,
        pay_on_chain_id()@ != system_program_id()@,
        token_program_id()@ != system_program_id()@,
{
    assert(pay_on_chain_id()@[0] != token_program_id()@[0]);
    assert(pay_on_chain_id()@[0] != token_2022_program_id()@[0]);
    assert(token_program_id()@[4] != token_2022_program_id()@[4]);
    assert(pay_on_chain_id()@[0] != system_program_id()@[0]);
    assert(token_program_id()@[0] != system_program_id()@[0]);
}

} // verus!
