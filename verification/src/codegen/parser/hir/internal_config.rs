use crate::text::{str_eq, views};
use vstd::prelude::*;
use vstd::string::*;

verus! {

/// What the resolver is told of the run: the names of the crates that are
/// bridged. Every other crate is only looked into for types.
#[derive(Debug, PartialEq, Eq)]
pub struct ParserHirInternalConfig {
    pub primary_crates: Vec<String>,
}

impl ParserHirInternalConfig {
    /// Whether `name` is the name of a crate that is bridged.
    pub open spec fn is_primary_spec(self, name: Seq<char>) -> bool {
        views(self.primary_crates@).contains(name)
    }

    /// Whether `name` is the name of a crate that is bridged.
    pub fn is_primary(&self, name: &str) -> (r: bool)
        ensures
            r == self.is_primary_spec(name@),
    {
        let mut i: usize = 0;
        while i < self.primary_crates.len()
            invariant
                i <= self.primary_crates.len(),
                forall|k: int| 0 <= k < i ==> self.primary_crates@[k]@ != name@,
            decreases self.primary_crates.len() - i,
        {
            if str_eq(self.primary_crates[i].as_str(), name) {
                assert(views(self.primary_crates@)[i as int] == name@);
                return true;
            }
            i += 1;
        }
        assert forall|k: int| 0 <= k < views(self.primary_crates@).len() implies views(
            self.primary_crates@,
        )[k] != name@ by {}
        false
    }
}

} // verus!
