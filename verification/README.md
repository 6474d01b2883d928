# sol-pay-client

A client library for a pay-as-you-go metering program on Solana, verified
with Verus, together with the program's own metering rules.

A payer approves the program's contract account as delegate on their token
account for a limit they choose; the site's server then meters page views
without the payer present, and transfers only once the unpaid balance is
worth a transaction.

## Layout

- `src/` — the verified library.
  - `metering` — the program's instructions as transitions on its accounts:
    the checks on which accounts a call names (only the site's authority may
    meter), and the invariant every instruction keeps (`paid <= used <=
    limit`, and a residue below the collection threshold).
  - `preflight` — the questions a site asks before it spends a fee (will
    this call be accepted, will it move money, how many views remain, what is
    the smallest limit), each proved to agree with `metering`.
  - `program`, `pda`, `ix`, `tx` — the deployment handle, address
    derivation, instruction builders and the ordered pairs the program
    requires.
  - `state` — decoding the program's accounts and SPL token accounts.
  - `units`, `slug` — decimal amounts at a mint's scale, and URL slugs.
  - `error`, `ids` — naming failures across the two programs, and the
    well-known addresses.
- `tests/` — tests of the library, including the metering flow run against
  a token ledger kept the way SPL Token keeps it.
- `app/` — the JavaScript surface: `wasm-bindgen` exports and the
  conversions to and from JavaScript values.

Verification: `verus` on `src/lib.rs` with the crates in `Cargo.toml`.
