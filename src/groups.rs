//! The list of group names that the API hands out.
use vstd::prelude::*;

verus! {

#[derive(Debug)]
pub struct Groups {
    pub groups: Vec<String>,
}

impl Groups {
    pub fn new(groups: Vec<String>) -> (r: Self)
        ensures
            r.groups == groups,
    {
        Groups { groups }
    }
}

} // verus!
