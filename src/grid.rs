//! The memory-mapped grid: 25 rows of 80 volatile cell words.
use crate::cell::{decode, ScreenChar};
use vstd::prelude::*;

verus! {

pub const BUFFER_HEIGHT: usize = 25;

pub const BUFFER_WIDTH: usize = 80;

#[verifier::external_type_specification]
#[verifier::external_body]
#[verifier::reject_recursive_types(T)]
pub struct ExVolatile<T: Copy>(volatile::Volatile<T>);

/// The word that a volatile cell holds.
pub uninterp spec fn cell_word(v: volatile::Volatile<u16>) -> u16;

/// The display grid, row by row. An array of `Volatile<u16>` has the layout of
/// an array of `u16`, so the hardware region can be seen through this type.
pub type Grid = [[volatile::Volatile<u16>; 80]; 25];

/// The cells of a grid, row by row.
pub open spec fn grid_rows(g: Grid) -> Seq<Seq<ScreenChar>> {
    Seq::new(25, |r: int| Seq::new(80, |c: int| decode(cell_word(g[r][c]))))
}

/// Relies on `volatile::Volatile::read`: a volatile load of the word the cell holds.
#[verifier::external_body]
pub(crate) fn read_cell(v: &volatile::Volatile<u16>) -> (r: u16)
    ensures
        r == cell_word(*v),
{
    v.read()
}

/// Relies on `volatile::Volatile::write`: a volatile store, after which the
/// cell holds the given word.
#[verifier::external_body]
pub(crate) fn write_cell(v: &mut volatile::Volatile<u16>, w: u16)
    ensures
        cell_word(*final(v)) == w,
    no_unwind
{
    v.write(w)
}

} // verus!
