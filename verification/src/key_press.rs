//! Single key presses.
//!
//! A single press is validated, accompanied by its side-channel update
//! where applicable, resolved to a numeric key code, and routed either
//! directly to the focused application client or through the
//! platform-wide injection path.  The request proceeds through the
//! states `Validate`, `SideChannelUpdate`, `ResolveCode`,
//! `ResolveFocusedClient` and `Inject`; this module decides each
//! transition, and the caller performs the outside calls in between.

use vstd::prelude::*;

use crate::error::DabError;
use crate::key::spec_needs_direct_injection;
use crate::key::needs_direct_injection;
use crate::rdk::RdkMethod;
use crate::text::str_eq;

verus! {

/// One planned key-injection call: the method to invoke and the
/// parameters it carries.  `client` is present only for direct
/// injection; `duration_ms` only for long presses.  The start delay is
/// always zero.
pub struct KeyInjection {
    pub method: RdkMethod,
    pub key_code: u16,
    pub client: Option<String>,
    pub delay_ms: u64,
    pub duration_ms: Option<u64>,
}

/// Validates a single-press request: the symbolic key name must be
/// non-empty and must not be the unsupported key.
///
/// Succeeds on exactly the key names that are non-empty and supported;
/// each rejection is a request-validation error with the message
/// stated.
pub fn validate_key_press(key_code: &str) -> (r: Result<(), DabError>)
    ensures
        key_code@.len() == 0 ==> (r matches Err(e) && e is Err400 && e.spec_message()
            == "request missing 'keyCode' parameter"@),
        key_code@.len() != 0 && key_code@ == "KEY_FAST_FORWARD"@ ==> (r matches Err(e) && e
            is Err400 && e.spec_message() == "'KEY_FAST_FORWARD' not supported"@),
        key_code@.len() != 0 && key_code@ != "KEY_FAST_FORWARD"@ ==> r is Ok,
{
    if key_code.is_empty() {
        Err(DabError::Err400("request missing 'keyCode' parameter".to_owned()))
    } else if str_eq(key_code, "KEY_FAST_FORWARD") {
        Err(DabError::Err400("'KEY_FAST_FORWARD' not supported".to_owned()))
    } else {
        Ok(())
    }
}

/// Turns the outcome of the symbolic-to-numeric keycode lookup into
/// the request's fate: an unresolved name is the one fatal condition
/// after validation.
pub fn require_key_code(resolved: Option<u16>) -> (r: Result<u16, DabError>)
    ensures
        match resolved {
            Option::Some(code) => r matches Ok(c) && c == code,
            Option::None => r matches Err(e) && e is Err400 && e.spec_message()
                == "keyCode' not found"@,
        },
{
    match resolved {
        Option::Some(code) => Ok(code),
        Option::None => Err(DabError::Err400("keyCode' not found".to_owned())),
    }
}

/// Plans the injection call for a single press.
///
/// A direct-injection key is delivered to the focused client through
/// the targeted key-generation method; when no focus target exists the
/// key is not injected at all (the side-channel update has already
/// taken effect) and the request still completes successfully.  Every
/// other key takes the platform-wide injection path unconditionally.
pub fn plan_key_press(key_code: &str, code: u16, focused: &Option<String>) -> (r: Option<
    KeyInjection,
>)
    ensures
        spec_needs_direct_injection(key_code@) ==> match focused {
            Option::Some(c) => r matches Some(inj) && inj.method == RdkMethod::GenerateKey
                && inj.key_code == code && (inj.client matches Some(cl) && cl@ == c@)
                && inj.delay_ms == 0 && inj.duration_ms is None,
            Option::None => r is None,
        },
        !spec_needs_direct_injection(key_code@) ==> (r matches Some(inj) && inj.method
            == RdkMethod::InjectKey && inj.key_code == code && inj.client is None && inj.delay_ms
            == 0 && inj.duration_ms is None),
{
    if needs_direct_injection(key_code) {
        match focused {
            Option::Some(c) => Option::Some(
                KeyInjection {
                    method: RdkMethod::GenerateKey,
                    key_code: code,
                    client: Option::Some(c.clone()),
                    delay_ms: 0,
                    duration_ms: Option::None,
                },
            ),
            Option::None => Option::None,
        }
    } else {
        Option::Some(
            KeyInjection {
                method: RdkMethod::InjectKey,
                key_code: code,
                client: Option::None,
                delay_ms: 0,
                duration_ms: Option::None,
            },
        )
    }
}

} // verus!
