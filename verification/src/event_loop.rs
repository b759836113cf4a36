//! What a transfer knows of the event loop that drives it.

use vstd::prelude::*;

verus! {

/// `calloop::RegistrationToken`, under which the event loop holds a transfer's source. Nothing is
/// known of what is inside; a transfer carries it and hands it back when it ends.
#[verifier::external_type_specification]
#[verifier::external_body]
pub struct ExRegistrationToken(calloop::RegistrationToken);

} // verus!
