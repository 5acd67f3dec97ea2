use vstd::prelude::*;

verus! {

/// The reply of the connectivity check.
pub open spec fn test_reply() -> Seq<char> {
    "Tauri command works!"@
}

/// Answers the front-end's connectivity check with a fixed string.
pub fn test_command() -> (r: String)
    ensures
        r@ == test_reply(),
{
    "Tauri command works!".to_string()
}

} // verus!
