//! The write-once cell in which a session keeps its read event.
//!
//! The cell is `once_cell::sync::OnceCell`. It is filled through a shared
//! reference, by whichever thread comes first, and nothing here empties it
//! again. Verus does not look inside it: what this module says of it is
//! taken from the cell's documentation and believed without proof.

use once_cell::sync::OnceCell;
use vstd::prelude::*;

verus! {

#[verifier::external_type_specification]
#[verifier::external_body]
#[verifier::reject_recursive_types(T)]
pub struct ExOnceCell<T>(OnceCell<T>);

/// The value that `cell` holds from its first filling on. Through a shared
/// reference a filled cell never changes, so every read that finds a value
/// finds this one.
pub uninterp spec fn settled(cell: OnceCell<usize>) -> usize;

/// `OnceCell::new`: a cell of its own, empty. Nothing is claimed of it.
#[verifier::external_body]
pub(crate) fn cell_new() -> (cell: OnceCell<usize>) {
    OnceCell::new()
}

/// `OnceCell::get`: the value in the cell, or `None` while the cell is empty
/// or being filled. Claimed: a value that is found is the one the cell
/// keeps. Whether one is found depends on what other threads did, and is
/// left open.
#[verifier::external_body]
pub(crate) fn cell_get(cell: &OnceCell<usize>) -> (value: Option<usize>)
    ensures
        value matches Some(v) ==> v == settled(*cell),
{
    cell.get().copied()
}

/// `OnceCell::get_or_init` with an initialiser that yields `value`: fills
/// the cell if it is empty and returns what the cell holds then. Claimed:
/// the result is the one value the cell keeps. Whether that is `value` or
/// an earlier one depends on who came first, and is left open.
#[verifier::external_body]
pub(crate) fn cell_get_or_init(cell: &OnceCell<usize>, value: usize) -> (held: usize)
    ensures
        held == settled(*cell),
{
    *cell.get_or_init(|| value)
}

} // verus!
