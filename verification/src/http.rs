//! Declarations of the transport crate's opaque types.

use vstd::prelude::*;

verus! {

#[verifier::external_type_specification]
#[verifier::external_body]
pub struct ExReqwestClient(reqwest::Client);

#[verifier::external_type_specification]
#[verifier::external_body]
pub struct ExReqwestError(reqwest::Error);

} // verus!
