//! The per-request context: what the connection tells about the caller, and
//! the key that vote tokens are verified against.
use vstd::prelude::*;

verus! {

pub struct Context {
    /// The caller's address as the connection reports it.
    pub user_ip: String,
    /// An optional device fingerprint of the caller.
    pub additional_fingureprint: Option<String>,
    /// The SEC1 encoding of the secp256k1 public key that signs vote tokens.
    pub public_key: Vec<u8>,
}

/// A copy of an optional string that is equal to it.
pub fn clone_opt_string(s: &Option<String>) -> (r: Option<String>)
    ensures
        r == *s,
{
    match s {
        Some(v) => Some(v.clone()),
        None => None,
    }
}

} // verus!
