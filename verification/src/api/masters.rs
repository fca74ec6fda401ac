//! The list of analyzers.

use vstd::prelude::*;
use crate::master::{all_masters, Master};

verus! {

/// Every analyzer once, in a fixed order.
pub fn list() -> (all: Vec<Master>)
    ensures
        all@ == all_masters(),
{
    Master::iter()
}

} // verus!
