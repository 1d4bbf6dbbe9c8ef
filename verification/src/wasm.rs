//! The text transformation offered to browser callers.

use vstd::prelude::*;
use vstd::string::*;

verus! {

/// The fixed prefix put in front of every processed input.
pub open spec fn processed_prefix() -> Seq<char> {
    "AI processed: "@
}

/// Returns `input` behind the prefix `AI processed: `.
pub fn process_input(input: &str) -> (out: String)
    ensures
        out@ == processed_prefix() + input@,
{
    String::from_str("AI processed: ").concat(input)
}

} // verus!
