//! The token verifier: checks a vote token's ES256K signature, its validity
//! window and its audience, and extracts the vote identifier it carries.
use vstd::prelude::*;
use crate::common::VoteTokenClaim;
use jwt_simple::prelude::ECDSAP256kPublicKeyLike;

verus! {

/// How much clock drift, in seconds, the token library tolerates by default.
/// It subtracts this from the verification time, which overflows below it.
pub const CLOCK_TOLERANCE_SECS: u64 = 900;

/// The latest verification time, in seconds since the epoch, to which the
/// token library can add its tolerance: its timestamps keep whole seconds in
/// 32 bits, so this is `2^32 - 1 - 900`.
pub const LATEST_VERIFY_SECS: u64 = 4294967295 - CLOCK_TOLERANCE_SECS;

/// What verifying `token` against the SEC1 public key `public_key`, with
/// `audience` as the only allowed audience and `now_secs` as the current time,
/// yields: `None` when the token is rejected, else the claim's `vote_id` when
/// it is a string.
pub uninterp spec fn es256k_vote_claim(
    public_key: Seq<u8>,
    token: Seq<char>,
    audience: Seq<char>,
    now_secs: u64,
) -> Option<Option<Seq<char>>>;

pub open spec fn opt_view(o: Option<String>) -> Option<Seq<char>> {
    match o {
        Some(s) => Some(s@),
        None => None,
    }
}

/// Relies on jwt_simple's `ES256kPublicKey::from_bytes` to read the key and on
/// `ECDSAP256kPublicKeyLike::verify_token` (signature, expiry and not-before
/// at the fixed time `now_secs`, audience membership) to check the token; the
/// `vote_id` custom claim is read as a string. With a fixed time the outcome
/// is a function of the arguments alone. Outside the time window the
/// library's timestamp arithmetic overflows.
#[verifier::external_body]
fn es256k_verify(public_key: &[u8], token: &str, audience: &str, now_secs: u64) -> (r: Option<
    Option<String>,
>)
    requires
        CLOCK_TOLERANCE_SECS <= now_secs <= LATEST_VERIFY_SECS,
    ensures
        r is Some <==> es256k_vote_claim(public_key@, token@, audience@, now_secs) is Some,
        r matches Some(v) ==> Some(opt_view(v)) == es256k_vote_claim(public_key@, token@, audience@, now_secs),
{
    let key = jwt_simple::prelude::ES256kPublicKey::from_bytes(public_key).ok()?;
    let mut options = jwt_simple::prelude::VerificationOptions::default();
    options.allowed_audiences = Some(std::collections::HashSet::from([audience.to_string()]));
    options.artificial_time = Some(jwt_simple::prelude::UnixTimeStamp::from_secs(now_secs));
    let claims = key.verify_token::<serde_json::Value>(token, Some(options)).ok()?;
    Some(claims.custom["vote_id"].as_str().map(|s| s.to_string()))
}

/// Relies on chrono's `Utc::now`: the server clock, in milliseconds since the
/// epoch. Nothing is known of the value.
#[verifier::external_body]
pub(crate) fn server_clock_millis() -> (r: i64) {
    chrono::Utc::now().timestamp_millis()
}

/// A token that could not be trusted. Which check failed is deliberately
/// not told.
#[derive(Debug, Clone, Copy, PartialEq, Eq)]
pub struct VerificationFailure;

/// Whether the token library can verify at this time.
pub open spec fn verifiable_at(now_secs: u64) -> bool {
    CLOCK_TOLERANCE_SECS <= now_secs <= LATEST_VERIFY_SECS
}

/// The claim that verifying `token` at `now_secs` yields, or `None` when it
/// is not trusted.
pub open spec fn verified_claim(public_key: Seq<u8>, token: Seq<char>, audience: Seq<char>, now_secs: u64) -> Option<Option<Seq<char>>> {
    if verifiable_at(now_secs) {
        es256k_vote_claim(public_key, token, audience, now_secs)
    } else {
        None
    }
}

/// The outcome of verification, as a claim or a failure.
pub open spec fn verify_matches(r: Result<VoteTokenClaim, VerificationFailure>, claim: Option<Option<Seq<char>>>) -> bool {
    match claim {
        None => r is Err,
        Some(id) => r matches Ok(c) && opt_view(c.vote_id) == id,
    }
}

/// Verifies a vote token against the configured public key, the expected
/// audience and the time `now_secs`, and returns the claim it carries.
pub fn verify(public_key: &Vec<u8>, token: &str, expected_audience: &str, now_secs: u64) -> (r: Result<
    VoteTokenClaim,
    VerificationFailure,
>)
    ensures
        verify_matches(r, verified_claim(public_key@, token@, expected_audience@, now_secs)),
{
    if now_secs < CLOCK_TOLERANCE_SECS || now_secs > LATEST_VERIFY_SECS {
        return Err(VerificationFailure);
    }
    match es256k_verify(public_key.as_slice(), token, expected_audience, now_secs) {
        Some(vote_id) => Ok(VoteTokenClaim { vote_id }),
        None => Err(VerificationFailure),
    }
}

} // verus!
