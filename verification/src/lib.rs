//! A canonical textual printer for the analyzed intermediate representation
//! of a constraint language for arithmetized computations: column and constant
//! declarations, polynomial/lookup/permutation/connection identities, and the
//! namespace-flattened symbol tables they live in.

use vstd::prelude::*;

pub mod algebraic;
pub mod expression;
pub mod identity;
pub mod laws;
pub mod printer;
pub mod strings;
pub mod symbols;
pub mod types;

verus! {

} // verus!
