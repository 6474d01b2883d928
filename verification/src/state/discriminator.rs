//! Anchor account discriminators: the first eight bytes of
//! `sha256("account:<StructName>")`, precomputed so the library needs no
//! hash at run time.

use vstd::prelude::*;

verus! {

pub const SITE: [u8; 8] = [143, 255, 52, 15, 65, 165, 94, 49];

pub const CONTRACT: [u8; 8] = [172, 138, 115, 242, 121, 67, 183, 26];

} // verus!
