//! The fixed greeting that shows that a host can call into the crate.

use vstd::prelude::*;

verus! {

/// The text of the greeting.
pub open spec fn greeting_text() -> Seq<char> {
    "Hello"@
}

/// Returns the greeting, the same text on every call.
pub fn msg() -> (greeting: String)
    ensures
        greeting@ == greeting_text(),
{
    "Hello".to_owned()
}

} // verus!
