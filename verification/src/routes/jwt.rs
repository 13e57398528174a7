use vstd::prelude::*;

verus! {

/// A token as it is presented for checking.
#[derive(Debug)]
pub struct JWToken {
    pub token: String,
}

} // verus!
