//! A best-effort probe for dead-code elimination.
//!
//! A program calls a marker function from the code path whose fate is in
//! question. If the optimizer removes every call, the linker is free to drop
//! the marker itself, and a later lookup of the marker's name in the running
//! process finds nothing.
//!
//! This crate holds the decisions of that probe: the name that is looked up
//! and its null-terminated form ([`symbol`]), what a lookup's answer means
//! and how the verdict is kept ([`resolution`]), and the query that puts
//! them together ([`marker_exists`]). The lookup itself is the caller's: it
//! is handed in as a function from the symbol to the address found.

use vstd::prelude::*;

pub mod resolution;
pub mod symbol;

use crate::resolution::{settled, Resolution};
use crate::symbol::{marker_name, marker_symbol, terminated};

verus! {

/// Whether `lookup` can be asked for the marker's symbol.
pub open spec fn takes_marker<F: FnOnce(&[u8]) -> usize>(lookup: F) -> bool {
    forall|symbol: &[u8]|
        symbol@ == terminated(marker_name()) ==> #[trigger] call_requires(lookup, (symbol,))
}

/// Whether `address` is an answer that `lookup` may give when asked for the
/// marker's symbol.
pub open spec fn answers_marker<F: FnOnce(&[u8]) -> usize>(lookup: F, address: usize) -> bool {
    exists|symbol: &[u8]|
        symbol@ == terminated(marker_name()) && #[trigger] call_ensures(
            lookup,
            (symbol,),
            address,
        )
}

/// Tells whether the marker is present in the running process.
///
/// `lookup` resolves a null-terminated symbol name in the process's symbol
/// table and hands back the address found, or the null address. It is
/// consulted only while the verdict is open, and then once, with the
/// marker's symbol: a resolution that holds a verdict asks nothing of
/// `lookup`, not even that it can be called. A failed lookup is no error; it
/// is the answer that the marker is absent.
pub fn marker_exists<F: FnOnce(&[u8]) -> usize>(
    resolution: &mut Resolution,
    lookup: F,
) -> (present: bool)
    requires
        old(resolution)@ is None ==> takes_marker(lookup),
    ensures
        final(resolution)@ == Some(present),
        old(resolution)@ is Some ==> final(resolution)@ == old(resolution)@,
        old(resolution)@ is None ==> exists|address: usize|
            #[trigger] answers_marker(lookup, address) && final(resolution)@ == settled(
                None,
                address,
            ),
{
    match resolution.verdict() {
        Some(known) => known,
        None => {
            let symbol: Vec<u8> = marker_symbol();
            let address: usize = lookup(symbol.as_slice());
            assert(answers_marker(lookup, address));
            resolution.record(address)
        },
    }
}

} // verus!
