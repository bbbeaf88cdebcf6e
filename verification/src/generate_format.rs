//! Where the generated description of Libra's serialization formats is kept.

use vstd::prelude::*;

verus! {

/// The default output file of the format description.
pub fn output_file() -> (res: Option<&'static str>)
    ensures
        res matches Some(f) && f@ == "tests/staged/libra.yaml"@,
{
    Some("tests/staged/libra.yaml")
}

} // verus!
