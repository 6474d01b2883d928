//! The deployment handle.
//!
//! Two things every builder needs and neither of which changes between
//! calls: which deployment of the metering program is being addressed, and
//! which SPL token program the site's mint belongs to. Both are defaults
//! rather than constraints, and both are stated once here instead of at
//! every call site.
//!
//! The token program is a property of the mint, not of the deployment; it
//! lives here anyway because a client instance serves one site. A caller who
//! spans both token programs holds two handles.
//!
//! The methods themselves live beside the code they build: derivation in
//! [`crate::pda`], instructions in [`crate::ix`], ordered pairs in
//! [`crate::tx`]. This module holds only the state.

use vstd::prelude::*;

use crate::ids::{
    lemma_program_ids_distinct, pay_on_chain_id, token_2022_program_id, token_program_id, Address,
};

verus! {

/// One deployment of the metering program, and the token program its mint
/// belongs to.
#[derive(Debug, Clone, Copy, PartialEq, Eq)]
pub struct Program {
    id: Address,
    token_program: Address,
}

/// The deployment this library was built against, on SPL Token.
pub closed spec fn canonical_program() -> Program {
    Program { id: pay_on_chain_id(), token_program: token_program_id() }
}

impl Program {
    /// The address this handle builds for.
    pub closed spec fn deployment(self) -> Address {
        self.id
    }

    /// The token program this handle builds against.
    pub closed spec fn token_program_key(self) -> Address {
        self.token_program
    }

    /// A handle is nothing but its deployment and its token program.
    pub proof fn lemma_handle_is_its_two_addresses(p: Program, q: Program)
        ensures
            (p == q) <==> (p.deployment() == q.deployment() && p.token_program_key()
                == q.token_program_key()),
            canonical_program().deployment() == pay_on_chain_id(),
            canonical_program().token_program_key() == token_program_id(),
    {
    }

    /// The deployment this library was built against, on SPL Token; the
    /// same value as [`Program::default`].
    pub fn canonical() -> (r: Program)
        ensures
            r == canonical_program(),
            r.deployment() == pay_on_chain_id(),
            r.token_program_key() == token_program_id(),
    {
        Program::new(pay_on_chain_id())
    }

    /// A deployment at `id`, on SPL Token.
    ///
    /// Nothing is checked: an address with no program behind it builds
    /// instructions that fail at the runtime.
    pub fn new(id: Address) -> (r: Program)
        ensures
            r.deployment() == id,
            r.token_program_key() == token_program_id(),
    {
        Program { id, token_program: token_program_id() }
    }

    /// The same deployment, against a different token program; for a site
    /// whose mint is a Token-2022 mint, say.
    pub fn with_token_program(self, token_program: Address) -> (r: Program)
        ensures
            r.deployment() == self.deployment(),
            r.token_program_key() == token_program,
    {
        Program { id: self.id, token_program }
    }

    /// The address this handle builds for.
    pub fn id(&self) -> (r: Address)
        ensures
            r == self.deployment(),
    {
        self.id
    }

    /// The token program this handle builds against.
    pub fn token_program(&self) -> (r: Address)
        ensures
            r == self.token_program_key(),
    {
        self.token_program
    }

    /// Whether a mint account belongs to the token program this handle is
    /// configured for. Pass the owner that came back beside the mint's data;
    /// a mismatch means every instruction this handle builds for that mint
    /// fails at the runtime.
    pub fn owns_mint(&self, mint_account_owner: &Address) -> (r: bool)
        ensures
            r == (mint_account_owner@ == self.token_program_key()@),
    {
        mint_account_owner.same_as(&self.token_program)
    }
}

/// A mint belongs to exactly one token program, so no handle owns both an
/// SPL Token mint and a Token-2022 mint.
pub proof fn lemma_a_mint_belongs_to_one_token_program(p: Program)
    ensures
        !(p.token_program_key()@ == token_program_id()@ && p.token_program_key()@
            == token_2022_program_id()@),
{
    lemma_program_ids_distinct();
}

impl Default for Program {
    fn default() -> (r: Program)
        ensures
            r == canonical_program(),
    {
        Program::canonical()
    }
}

impl From<Address> for Program {
    fn from(id: Address) -> (r: Program)
        ensures
            r.deployment() == id,
            r.token_program_key() == token_program_id(),
    {
        Program::new(id)
    }
}

impl vstd::std_specs::convert::FromSpecImpl<Address> for Program {
    open spec fn obeys_from_spec() -> bool {
        true
    }

    closed spec fn from_spec(v: Address) -> Program {
        Program { id: v, token_program: token_program_id() }
    }
}

} // verus!
