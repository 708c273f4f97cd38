//! Descriptions shared by several syndrome layouts.

use crate::field::{DecodeError, Decoded, DecodedModel};
use vstd::prelude::*;

verus! {

/// What the CV bit says of the COND field beside it.
pub open spec fn cv_text(cv: bool) -> Seq<char> {
    if cv {
        "COND is valid"@
    } else {
        "COND is not valid"@
    }
}

/// Describes the CV bit.
pub fn describe_cv(cv: bool) -> (text: &'static str)
    ensures
        text@ == cv_text(cv),
{
    if cv {
        "COND is valid"
    } else {
        "COND is not valid"
    }
}

/// What a decoder's result holds: the tree by its model, the error as it is.
pub open spec fn outcome(result: Result<Decoded, DecodeError>) -> Result<
    DecodedModel,
    DecodeError,
> {
    match result {
        Ok(decoded) => Ok(decoded@),
        Err(error) => Err(error),
    }
}

} // verus!
