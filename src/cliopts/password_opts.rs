//! Options of the `genpass` command.
use vstd::prelude::*;

verus! {

/// Options of `genpass`: the length and which character classes to use.
pub struct GenPassOpts {
    pub length: u8,
    pub uppercase: bool,
    pub lowercase: bool,
    pub numbers: bool,
    pub symbol: bool,
}

} // verus!
