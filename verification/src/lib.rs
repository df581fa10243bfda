//! Declaration synthesis for a family of derived record types.
//!
//! Given one template record whose fields carry directives from the reserved
//! `boilermates` annotation namespace, this crate parses those directives,
//! resolves which derived entities each field belongs to, keeps the resulting
//! entity family in declaration order, and answers the structural queries a
//! declaration emitter needs (field differences by name, capability names).

use vstd::prelude::*;
use vstd::string::StringExecFns;

pub mod attributes;
pub mod fields;
pub mod laws;
pub mod output;
pub mod syntax;
pub mod traits;

verus! {

/// Whether a membership list already names the given entity.
pub open spec fn seq_contains_str(names: Seq<String>, name: Seq<char>) -> bool {
    exists|i: int| 0 <= i < names.len() && names[i]@ == name
}

/// Linear search for an entity name in a membership list.
pub fn contains_name(names: &Vec<String>, name: &String) -> (r: bool)
    ensures
        r == seq_contains_str(names@, name@),
{
    let mut i: usize = 0;
    while i < names.len()
        invariant
            0 <= i <= names.len(),
            forall|j: int| 0 <= j < i ==> names@[j]@ != name@,
        decreases names.len() - i,
    {
        if names[i].eq(name) {
            return true;
        }
        i += 1;
    }
    false
}

/// Whether a string holds exactly the given text.
pub fn str_is(s: &String, w: &str) -> (r: bool)
    ensures
        r == (s@ == w@),
{
    s.eq(&String::from_str(w))
}

/// Stepping a prefix of a sequence forward by one element.
pub proof fn lemma_take_step<A>(s: Seq<A>, i: int)
    requires
        0 <= i < s.len(),
    ensures
        s.take(i + 1).drop_last() == s.take(i),
        s.take(i + 1).last() == s[i],
{
    assert(s.take(i + 1).drop_last() =~= s.take(i));
}

} // verus!
