//! The bearer check of the management API.
//!
//! One token per node, minted on first boot into `auth/token`. Deliberately a string
//! comparison and not a signed token scheme, and a constant-time one: this token is the whole
//! of what stands between a caller and deploying code to the node.
use vstd::prelude::*;
use vstd::utf8::encode_utf8_decode_utf8;
use crate::api::error::{ApiError, Kind};
use crate::text::{strip_prefix, strip_prefix_spec};

verus! {

/// What an `Authorization` header presents as a bearer token: what follows `Bearer `, and
/// nothing when there is no header or it names another scheme.
pub open spec fn bearer_of(authorization: Option<Seq<char>>) -> Seq<char> {
    match authorization {
        Some(value) => match strip_prefix_spec(value, "Bearer "@) {
            Some(token) => token,
            None => Seq::empty(),
        },
        None => Seq::empty(),
    }
}

/// The sentence a request without this node's token is answered with.
pub open spec fn unauthorized_message() -> Seq<char> {
    "this endpoint needs `Authorization: Bearer <token>`, with the token from this node's auth/token"@
}

/// Whether a request carrying `authorization` (the header's value, when it has one that is
/// text) may proceed on a node whose token is `token`; the refusal when it may not.
pub fn authorize(authorization: Option<&str>, token: &str) -> (verdict: Result<(), ApiError>)
    ensures
        verdict is Ok <==> bearer_of(match authorization { Some(v) => Some(v@), None => None }) == token@,
        verdict matches Err(e) ==> (e.error == Kind::Unauthorized && e.message@ == unauthorized_message()
            && e.detail is None),
{
    let presented = match authorization {
        Some(value) => match strip_prefix(value, "Bearer ") {
            Some(rest) => rest,
            None => String::new(),
        },
        None => String::new(),
    };
    let ghost wanted = bearer_of(match authorization { Some(v) => Some(v@), None => None });
    assert(presented@ == wanted);
    let equal = constant_time_eq(presented.as_str().as_bytes(), token.as_bytes());
    proof {
        encode_utf8_decode_utf8(presented@);
        encode_utf8_decode_utf8(token@);
    }
    if equal {
        Ok(())
    } else {
        Err(ApiError::new(
            Kind::Unauthorized,
            String::from_str(
                "this endpoint needs `Authorization: Bearer <token>`, with the token from this node's auth/token",
            ),
        ))
    }
}

/// Whether two byte strings are equal, in time that does not depend on where they differ.
///
/// The length comparison up front is not a leak worth avoiding: the token's length is fixed by
/// the node that minted it and is not a secret.
pub fn constant_time_eq(presented: &[u8], expected: &[u8]) -> (equal: bool)
    ensures
        equal == (presented@ == expected@),
{
    if presented.len() != expected.len() {
        return false;
    }
    let mut differences: u8 = 0;
    let mut i: usize = 0;
    while i < presented.len()
        invariant
            presented@.len() == expected@.len(),
            i <= presented@.len(),
            (differences == 0) <==> (forall|j: int| 0 <= j < i ==> presented@[j] == expected@[j]),
        decreases presented@.len() - i,
    {
        let left = presented[i];
        let right = expected[i];
        let before = differences;
        differences = differences | (left ^ right);
        assert((before | (left ^ right)) == 0u8 <==> (before == 0u8 && left == right)) by (bit_vector);
        i = i + 1;
    }
    assert(differences == 0 ==> presented@ =~= expected@);
    differences == 0
}

} // verus!
