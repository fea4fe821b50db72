//! Procedural RGBA image synthesis: flattens row-major pixels into an RGBA
//! byte buffer with a fully opaque alpha channel, and encodes that buffer
//! as an in-memory PNG stream through the png crate.

pub mod encode;
pub mod image;

use vstd::prelude::*;
use vstd::string::StringExecFns;

verus! {

/// Appends the fixed suffix " something" to a borrowed string,
/// returning an owned copy.
pub fn do_something_to_a_string(foo: &str) -> (r: String)
    ensures
        r@ == foo@ + " something"@,
{
    foo.to_owned().concat(" something")
}

} // verus!
