//! The words by which backends, curves and proving schemes are written.

use vstd::prelude::*;

verus! {

pub const BELLMAN: &'static str = "bellman";

pub const ZEXE: &'static str = "zexe";

pub const LIBSNARK: &'static str = "libsnark";

pub const BN128: &'static str = "bn128";

pub const BLS12_381: &'static str = "bls12_381";

pub const BLS12_377: &'static str = "bls12_377";

pub const BW6_761: &'static str = "bw6_761";

pub const G16: &'static str = "g16";

pub const GM17: &'static str = "gm17";

pub const PGHR13: &'static str = "pghr13";

} // verus!
