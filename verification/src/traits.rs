//! Deterministic names for per-field capability markers.
//!
//! The declaration emitter uses these to reference marker declarations saying
//! whether a derived entity structurally contains, or lacks, a given field.

use vstd::prelude::*;
use vstd::string::StringExecFns;

use crate::fields::BoilermatesField;
use crate::syntax::pascal_case;
use crate::syntax::pascal_of;

verus! {

impl BoilermatesField {
    /// The marker for an entity that has this field: `Has<PascalCaseName>`.
    pub fn trait_name(&self) -> (r: String)
        ensures
            r@ == "Has"@ + pascal_of(self.name@),
    {
        let p = pascal_case(self.name.as_str());
        String::from_str("Has").concat(p.as_str())
    }

    /// The marker for an entity that lacks this field: `HasNo<PascalCaseName>`.
    pub fn neg_trait_name(&self) -> (r: String)
        ensures
            r@ == "HasNo"@ + pascal_of(self.name@),
    {
        let p = pascal_case(self.name.as_str());
        String::from_str("HasNo").concat(p.as_str())
    }
}

} // verus!
