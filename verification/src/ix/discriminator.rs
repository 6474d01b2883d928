//! Anchor instruction discriminators: the first eight bytes of
//! `sha256("global:<name>")`, precomputed so the library needs no hash at
//! run time. They come from each instruction's name, not from the address
//! it is deployed at, so they do not vary by deployment.

use vstd::prelude::*;

verus! {

pub const INITIALIZE_SITE: [u8; 8] = [85, 52, 128, 208, 7, 224, 178, 79];

pub const OPEN_CONTRACT: [u8; 8] = [124, 62, 192, 145, 192, 90, 59, 211];

pub const METER_AND_SETTLE: [u8; 8] = [139, 17, 0, 139, 114, 233, 88, 121];

pub const RENEW_CONTRACT: [u8; 8] = [125, 228, 198, 154, 176, 239, 140, 144];

pub const CLOSE_CONTRACT: [u8; 8] = [37, 244, 34, 168, 92, 202, 80, 106];

} // verus!
