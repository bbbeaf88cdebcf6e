//! The JSON-RPC service's check of how many parameters a method call carries.

use crate::text::{decimal, push_decimal, string_push};
use vstd::prelude::*;

verus! {

/// How the accepted number of parameters is written: the number itself when no
/// parameter is optional, the range "least..most" otherwise.
pub open spec fn expected_params_text(required: nat, optional: nat) -> Seq<char> {
    if optional == 0 {
        decimal(required)
    } else {
        decimal(required) + ".."@ + decimal(required + optional)
    }
}

/// The complaint about a call with `given` parameters.
pub open spec fn params_count_text(given: nat, required: nat, optional: nat) -> Seq<char> {
    "wrong number of arguments (given "@ + decimal(given) + ", expected "@ + expected_params_text(
        required,
        optional,
    ) + ")"@
}

/// Checks the number of parameters of a call to a method that takes `required`
/// parameters and up to `optional` more: none when it is accepted, the complaint
/// sent back otherwise.
pub fn params_count_error(given: usize, required: usize, optional: usize) -> (res: Option<String>)
    requires
        required + optional <= usize::MAX,
    ensures
        res is None <==> required <= given <= required + optional,
        res matches Some(m) ==> m@ == params_count_text(given as nat, required as nat, optional as nat),
{
    if given < required || given > required + optional {
        let mut text = String::from_str("wrong number of arguments (given ");
        push_decimal(&mut text, given as u64);
        text.append(", expected ");
        push_decimal(&mut text, required as u64);
        if optional != 0 {
            string_push(&mut text, '.');
            string_push(&mut text, '.');
            push_decimal(&mut text, (required + optional) as u64);
        }
        string_push(&mut text, ')');
        proof {
            reveal_strlit("..");
            reveal_strlit(")");
            assert(text@ =~= params_count_text(given as nat, required as nat, optional as nat));
        }
        Some(text)
    } else {
        None
    }
}

} // verus!
