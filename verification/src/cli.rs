//! The command line's one piece of parsing the library owns: a `--prop name=expression` pair.
use vstd::prelude::*;
use crate::text::{chars_of, find, find_char, lemma_find, string_of};

verus! {

/// What a `--prop` argument names, or `None` when it names nothing: split at the first `=`,
/// with a name before it that is not empty.
pub open spec fn property_spec(argument: Seq<char>) -> Option<(Seq<char>, Seq<char>)> {
    match find(argument, '=') {
        Some(at) => if at > 0 {
            Some((argument.subrange(0, at), argument.subrange(at + 1, argument.len() as int)))
        } else {
            None
        },
        None => None,
    }
}

/// Parses a `--prop name=expression` pair.
///
/// Split at the *first* `=`, because an expression is full of them: `hot=(= $state "on")` is
/// one property named `hot`. An empty expression is accepted here — it is a parse error later,
/// with a span.
pub fn property(argument: &str) -> (pair: Result<(String, String), String>)
    ensures
        match pair {
            Ok((name, expression)) => property_spec(argument@) == Some((name@, expression@)),
            Err(message) => property_spec(argument@) is None && message@ == "expected NAME=EXPRESSION"@,
        },
{
    let chars = chars_of(argument);
    match find_char(&chars, '=') {
        Some(at) => {
            proof {
                lemma_find(chars@, '=');
            }
            let n = chars.len();
            if at > 0 {
                Ok((string_of(&chars, 0, at), string_of(&chars, at + 1, n)))
            } else {
                Err(String::from_str("expected NAME=EXPRESSION"))
            }
        },
        None => Err(String::from_str("expected NAME=EXPRESSION")),
    }
}

} // verus!
