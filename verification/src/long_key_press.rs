//! Long key presses.
//!
//! A long press is validated (the hold duration must be non-zero),
//! resolved and routed like a single press, and then held to a timing
//! floor: the total observed processing time of the request must never
//! be less than the requested hold duration.  The press itself is one
//! key-generation call carrying a zero start-delay and the requested
//! duration; after the call returns, the caller sleeps for whatever
//! part of the duration has not yet elapsed.

use vstd::prelude::*;

use crate::error::DabError;
use crate::key::spec_needs_direct_injection;
use crate::key::needs_direct_injection;
use crate::key_press::KeyInjection;
use crate::rdk::RdkMethod;
use crate::text::str_eq;

verus! {

/// Validates a long-press request: the symbolic key name must be
/// non-empty, the hold duration non-zero, and the key supported.
///
/// Succeeds on exactly the requests that pass all three checks, in
/// the order stated; each rejection is a request-validation error
/// with the message stated.
pub fn validate_long_key_press(key_code: &str, duration_ms: u64) -> (r: Result<(), DabError>)
    ensures
        key_code@.len() == 0 ==> (r matches Err(e) && e is Err400 && e.spec_message()
            == "request missing 'keyCode' parameter"@),
        key_code@.len() != 0 && duration_ms == 0 ==> (r matches Err(e) && e is Err400
            && e.spec_message() == "request missing 'durationMs' parameter"@),
        key_code@.len() != 0 && duration_ms != 0 && key_code@ == "KEY_FAST_FORWARD"@ ==> (r
            matches Err(e) && e is Err400 && e.spec_message()
            == "'KEY_FAST_FORWARD' not supported"@),
        key_code@.len() != 0 && duration_ms != 0 && key_code@ != "KEY_FAST_FORWARD"@ ==> r is Ok,
{
    if key_code.is_empty() {
        Err(DabError::Err400("request missing 'keyCode' parameter".to_owned()))
    } else if duration_ms == 0 {
        Err(DabError::Err400("request missing 'durationMs' parameter".to_owned()))
    } else if str_eq(key_code, "KEY_FAST_FORWARD") {
        Err(DabError::Err400("'KEY_FAST_FORWARD' not supported".to_owned()))
    } else {
        Ok(())
    }
}

/// Plans the one injection call of a long press.
///
/// The call is always the key-generation method, with a zero start
/// delay and the requested hold duration.  The routing decision is the
/// one single presses use: a direct-injection key is targeted at the
/// focused client when one exists; in every other case (including a
/// direct-injection key without a focus target) the call carries no
/// client and goes platform-wide.
pub fn plan_long_key_press(key_code: &str, code: u16, focused: &Option<String>, duration_ms: u64)
    -> (r: KeyInjection)
    ensures
        r.method == RdkMethod::GenerateKey,
        r.key_code == code,
        r.delay_ms == 0,
        r.duration_ms == Some(duration_ms),
        spec_needs_direct_injection(key_code@) ==> match focused {
            Option::Some(c) => r.client matches Some(cl) && cl@ == c@,
            Option::None => r.client is None,
        },
        !spec_needs_direct_injection(key_code@) ==> r.client is None,
{
    let client: Option<String> = if needs_direct_injection(key_code) {
        match focused {
            Option::Some(c) => Option::Some(c.clone()),
            Option::None => Option::None,
        }
    } else {
        Option::None
    };
    KeyInjection {
        method: RdkMethod::GenerateKey,
        key_code: code,
        client,
        delay_ms: 0,
        duration_ms: Option::Some(duration_ms),
    }
}

/// The time still missing from the duration floor once `elapsed_ms`
/// of processing time has passed.
pub open spec fn spec_remaining_wait(elapsed_ms: u64, total_ms: u64) -> u64 {
    if elapsed_ms >= total_ms {
        0u64
    } else {
        (total_ms - elapsed_ms) as u64
    }
}

/// How long the caller must still sleep after the injection call
/// returned, so that the total observed processing time reaches the
/// requested hold duration.
pub fn remaining_wait(elapsed_ms: u64, total_ms: u64) -> (r: u64)
    ensures
        r == spec_remaining_wait(elapsed_ms, total_ms),
{
    if elapsed_ms >= total_ms {
        0
    } else {
        total_ms - elapsed_ms
    }
}

/// The duration floor: however long the injection call itself took,
/// the elapsed time plus the computed remaining wait is never less
/// than the requested hold duration.  Sleeping for the remaining wait
/// therefore makes the total observed processing time of the request
/// at least the requested duration.
pub proof fn lemma_duration_floor(elapsed_ms: u64, total_ms: u64)
    ensures
        elapsed_ms + spec_remaining_wait(elapsed_ms, total_ms) >= total_ms,
{
}

} // verus!
