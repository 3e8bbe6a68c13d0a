//! Shared key-routing decisions.
//!
//! A small set of symbolic keys (volume up, volume down, mute) must be
//! delivered directly to the focused application client, because the
//! platform-wide injection path would intercept them.  This module
//! decides which keys those are, classifies system clients, resolves
//! the focused client from a stacking order, and computes the volume
//! side-channel update that accompanies volume and mute keys.

use vstd::prelude::*;

use crate::text::{has_prefix, str_eq, str_starts_with};

verus! {

/// Keys that must bypass the platform-wide injection path.
pub open spec fn spec_needs_direct_injection(key: Seq<char>) -> bool {
    key == "KEY_VOLUME_UP"@ || key == "KEY_VOLUME_DOWN"@ || key == "KEY_MUTE"@
}

/// Whether `key_code` must be delivered directly to the focused
/// application client rather than through the platform-wide path.
pub fn needs_direct_injection(key_code: &str) -> (r: bool)
    ensures
        r == spec_needs_direct_injection(key_code@),
{
    str_eq(key_code, "KEY_VOLUME_UP") || str_eq(key_code, "KEY_VOLUME_DOWN") || str_eq(
        key_code,
        "KEY_MUTE",
    )
}

/// The built-in classification of system and overlay clients: the
/// recognized prefixes and the one recognized exact name.
pub open spec fn spec_is_system_client(c: Seq<char>) -> bool {
    has_prefix(c, "subtec_"@) || has_prefix(c, "test-"@) || c == "rdkshell_display"@
}

/// Whether `client` is a system or overlay client that must never be
/// treated as the focused application, under the built-in patterns.
pub fn is_system_client(client: &str) -> (r: bool)
    ensures
        r == spec_is_system_client(client@),
{
    str_starts_with(client, "subtec_") || str_starts_with(client, "test-") || str_eq(
        client,
        "rdkshell_display",
    )
}

/// A configurable set of recognized system-client patterns: a client
/// matches when one of `prefixes` is a prefix of its identifier or its
/// identifier equals one of `exact`.
pub struct SystemClientPolicy {
    pub prefixes: Vec<String>,
    pub exact: Vec<String>,
}

/// A client identifier `c` matches a pattern set.
pub open spec fn spec_system_under(
    prefixes: Seq<Seq<char>>,
    exact: Seq<Seq<char>>,
    c: Seq<char>,
) -> bool {
    (exists|i: int| 0 <= i < prefixes.len() && has_prefix(c, #[trigger] prefixes[i])) || (exists|
        i: int,
    |
        0 <= i < exact.len() && c == #[trigger] exact[i])
}

impl SystemClientPolicy {
    /// The pattern set a policy stands for.
    pub open spec fn spec_matches(&self, c: Seq<char>) -> bool {
        spec_system_under(self.prefixes.deep_view(), self.exact.deep_view(), c)
    }

    /// The built-in pattern set, matching exactly the clients that
    /// [`is_system_client`] recognizes.
    pub fn standard() -> (r: SystemClientPolicy)
        ensures
            r.prefixes.deep_view() == seq!["subtec_"@, "test-"@],
            r.exact.deep_view() == seq!["rdkshell_display"@],
    {
        let mut prefixes: Vec<String> = Vec::new();
        prefixes.push("subtec_".to_owned());
        prefixes.push("test-".to_owned());
        let mut exact: Vec<String> = Vec::new();
        exact.push("rdkshell_display".to_owned());
        proof {
            assert(prefixes.deep_view() =~= seq!["subtec_"@, "test-"@]);
            assert(exact.deep_view() =~= seq!["rdkshell_display"@]);
        }
        SystemClientPolicy { prefixes, exact }
    }

    /// Whether `client` matches this pattern set.
    pub fn matches(&self, client: &str) -> (r: bool)
        ensures
            r == self.spec_matches(client@),
    {
        let mut i: usize = 0;
        while i < self.prefixes.len()
            invariant
                i <= self.prefixes.len(),
                forall|k: int|
                    0 <= k < i ==> !has_prefix(client@, #[trigger] self.prefixes.deep_view()[k]),
            decreases self.prefixes.len() - i,
        {
            if str_starts_with(client, self.prefixes[i].as_str()) {
                proof {
                    assert(self.prefixes.deep_view()[i as int] == self.prefixes@[i as int]@);
                    assert(has_prefix(client@, self.prefixes.deep_view()[i as int]));
                }
                return true;
            }
            proof {
                assert(self.prefixes.deep_view()[i as int] == self.prefixes@[i as int]@);
            }
            i += 1;
        }
        let mut j: usize = 0;
        while j < self.exact.len()
            invariant
                j <= self.exact.len(),
                forall|k: int| 0 <= k < j ==> client@ != #[trigger] self.exact.deep_view()[k],
            decreases self.exact.len() - j,
        {
            if str_eq(client, self.exact[j].as_str()) {
                proof {
                    assert(self.exact.deep_view()[j as int] == self.exact@[j as int]@);
                    assert(client@ == self.exact.deep_view()[j as int]);
                }
                return true;
            }
            proof {
                assert(self.exact.deep_view()[j as int] == self.exact@[j as int]@);
            }
            j += 1;
        }
        false
    }
}

/// The built-in pattern set recognizes exactly the clients that the
/// fixed classification recognizes.
pub proof fn lemma_standard_policy_agrees(p: SystemClientPolicy, c: Seq<char>)
    requires
        p.prefixes.deep_view() == seq!["subtec_"@, "test-"@],
        p.exact.deep_view() == seq!["rdkshell_display"@],
    ensures
        p.spec_matches(c) == spec_is_system_client(c),
{
    let prefixes = p.prefixes.deep_view();
    let exact = p.exact.deep_view();
    assert(prefixes[0] == "subtec_"@);
    assert(prefixes[1] == "test-"@);
    assert(exact[0] == "rdkshell_display"@);
    if spec_is_system_client(c) {
        if has_prefix(c, "subtec_"@) {
            assert(has_prefix(c, prefixes[0]));
        } else if has_prefix(c, "test-"@) {
            assert(has_prefix(c, prefixes[1]));
        } else {
            assert(c == exact[0]);
        }
    }
}

/// The reply of the client stacking-order query: the client
/// identifiers from front to back, and the call's logical success
/// flag.
pub struct ZOrderReply {
    pub clients: Vec<String>,
    pub success: bool,
}

/// The first client in `clients` that the predicate `sys` does not
/// recognize as a system client, if any.
pub open spec fn first_allowed(clients: Seq<Seq<char>>, sys: spec_fn(Seq<char>) -> bool) -> Option<
    Seq<char>,
>
    decreases clients.len(),
{
    if clients.len() == 0 {
        None
    } else if !sys(clients[0]) {
        Some(clients[0])
    } else {
        first_allowed(clients.drop_first(), sys)
    }
}

/// The focused client of a stacking-order query, under the built-in
/// system-client classification.
///
/// The reply is `None` when the stacking-order call itself failed at
/// the transport level; a reply whose logical success flag is false is
/// likewise treated as giving no focus target.  Absence of a focus
/// target is not an error: direct-injection keys are then simply not
/// injected.
pub open spec fn spec_focused_client(reply: Option<ZOrderReply>) -> Option<Seq<char>> {
    match reply {
        Option::None => Option::None,
        Option::Some(z) => if !z.success {
            Option::None
        } else {
            first_allowed(z.clients.deep_view(), |c: Seq<char>| spec_is_system_client(c))
        },
    }
}

/// Resolves the focused application client: the first entry of the
/// stacking order that is not a recognized system client.
pub fn get_focused_client(reply: &Option<ZOrderReply>) -> (r: Option<String>)
    ensures
        match r {
            Option::Some(s) => spec_focused_client(*reply) == Option::Some(s@),
            Option::None => spec_focused_client(*reply) is None,
        },
{
    match reply {
        Option::None => Option::None,
        Option::Some(z) => {
            if !z.success {
                Option::None
            } else {
                first_allowed_client(&z.clients)
            }
        },
    }
}

/// The first entry of `clients` that the built-in classification does
/// not recognize as a system client.
pub fn first_allowed_client(clients: &Vec<String>) -> (r: Option<String>)
    ensures
        match r {
            Option::Some(s) => first_allowed(
                clients.deep_view(),
                |c: Seq<char>| spec_is_system_client(c),
            ) == Option::Some(s@),
            Option::None => first_allowed(
                clients.deep_view(),
                |c: Seq<char>| spec_is_system_client(c),
            ) is None,
        },
{
    let ghost sys = |c: Seq<char>| spec_is_system_client(c);
    let ghost full = clients.deep_view();
    proof {
        assert(full.skip(0) =~= full);
    }
    let mut i: usize = 0;
    while i < clients.len()
        invariant
            full == clients.deep_view(),
            sys == (|c: Seq<char>| spec_is_system_client(c)),
            i <= clients.len(),
            full.len() == clients.len(),
            first_allowed(full, sys) == first_allowed(full.skip(i as int), sys),
        decreases clients.len() - i,
    {
        let c = &clients[i];
        proof {
            assert(full.skip(i as int)[0] == full[i as int]);
            assert(full[i as int] == c@);
        }
        if !is_system_client(c.as_str()) {
            proof {
                assert(first_allowed(full.skip(i as int), sys) == Option::Some(c@));
            }
            return Option::Some(c.clone());
        }
        proof {
            assert(full.skip(i as int).drop_first() =~= full.skip(i as int + 1));
            assert(first_allowed(full.skip(i as int), sys) == first_allowed(
                full.skip(i as int + 1),
                sys,
            ));
        }
        i += 1;
    }
    proof {
        assert(full.skip(i as int) =~= Seq::<Seq<char>>::empty());
        assert(first_allowed(full, sys) is None);
    }
    Option::None
}

/// The first client that a configurable pattern set does not
/// recognize as a system client, if any.
pub open spec fn first_allowed_under(
    prefixes: Seq<Seq<char>>,
    exact: Seq<Seq<char>>,
    clients: Seq<Seq<char>>,
) -> Option<Seq<char>>
    decreases clients.len(),
{
    if clients.len() == 0 {
        None
    } else if !spec_system_under(prefixes, exact, clients[0]) {
        Some(clients[0])
    } else {
        first_allowed_under(prefixes, exact, clients.drop_first())
    }
}

/// The focused client under a configurable system-client pattern set:
/// the first entry of the stacking order that the pattern set does not
/// recognize, provided the stacking-order call succeeded logically.
pub fn focused_client_under(policy: &SystemClientPolicy, reply: &Option<ZOrderReply>) -> (r: Option<
    String,
>)
    ensures
        match r {
            Option::Some(s) => match reply {
                Option::Some(z) => z.success && first_allowed_under(
                    policy.prefixes.deep_view(),
                    policy.exact.deep_view(),
                    z.clients.deep_view(),
                ) == Option::Some(s@),
                Option::None => false,
            },
            Option::None => match reply {
                Option::Some(z) => !z.success || first_allowed_under(
                    policy.prefixes.deep_view(),
                    policy.exact.deep_view(),
                    z.clients.deep_view(),
                ) is None,
                Option::None => true,
            },
        },
{
    match reply {
        Option::None => Option::None,
        Option::Some(z) => {
            if !z.success {
                Option::None
            } else {
                first_allowed_client_under(policy, &z.clients)
            }
        },
    }
}

/// The first entry of `clients` that the pattern set does not
/// recognize as a system client.
pub fn first_allowed_client_under(policy: &SystemClientPolicy, clients: &Vec<String>) -> (r: Option<
    String,
>)
    ensures
        match r {
            Option::Some(s) => first_allowed_under(
                policy.prefixes.deep_view(),
                policy.exact.deep_view(),
                clients.deep_view(),
            ) == Option::Some(s@),
            Option::None => first_allowed_under(
                policy.prefixes.deep_view(),
                policy.exact.deep_view(),
                clients.deep_view(),
            ) is None,
        },
{
    let ghost ps = policy.prefixes.deep_view();
    let ghost es = policy.exact.deep_view();
    let ghost full = clients.deep_view();
    proof {
        assert(full.skip(0) =~= full);
    }
    let mut i: usize = 0;
    while i < clients.len()
        invariant
            ps == policy.prefixes.deep_view(),
            es == policy.exact.deep_view(),
            full == clients.deep_view(),
            i <= clients.len(),
            full.len() == clients.len(),
            first_allowed_under(ps, es, full) == first_allowed_under(ps, es, full.skip(i as int)),
        decreases clients.len() - i,
    {
        let c = &clients[i];
        proof {
            assert(full.skip(i as int)[0] == full[i as int]);
            assert(full[i as int] == c@);
        }
        if !policy.matches(c.as_str()) {
            proof {
                assert(first_allowed_under(ps, es, full.skip(i as int)) == Option::Some(c@));
            }
            return Option::Some(c.clone());
        }
        proof {
            assert(full.skip(i as int).drop_first() =~= full.skip(i as int + 1));
            assert(first_allowed_under(ps, es, full.skip(i as int)) == first_allowed_under(
                ps,
                es,
                full.skip(i as int + 1),
            ));
        }
        i += 1;
    }
    proof {
        assert(full.skip(i as int) =~= Seq::<Seq<char>>::empty());
        assert(first_allowed_under(ps, es, full) is None);
    }
    Option::None
}

/// The volume level after one volume-up step: up by [`crate::VOLUME_STEP`]
/// units, clamped to 100.
pub open spec fn spec_volume_up(v: u32) -> u32 {
    if v + crate::VOLUME_STEP > 100 {
        100u32
    } else {
        (v + crate::VOLUME_STEP) as u32
    }
}

/// The volume level after one volume-down step: down by
/// [`crate::VOLUME_STEP`] units, clamped to 0.
pub open spec fn spec_volume_down(v: u32) -> u32 {
    if v < crate::VOLUME_STEP {
        0u32
    } else {
        (v - crate::VOLUME_STEP) as u32
    }
}

/// One volume-up step, clamped to the valid volume range.
pub fn volume_after_up(current: u32) -> (r: u32)
    ensures
        r == spec_volume_up(current),
        r <= 100,
{
    if current > 100 - crate::VOLUME_STEP {
        100
    } else {
        current + crate::VOLUME_STEP
    }
}

/// One volume-down step, clamped to the valid volume range.
pub fn volume_after_down(current: u32) -> (r: u32)
    ensures
        r == spec_volume_down(current),
{
    if current < crate::VOLUME_STEP {
        0
    } else {
        current - crate::VOLUME_STEP
    }
}

/// The persisted-state update that accompanies a key, independent of
/// injection.
#[derive(PartialEq, Eq, Structural, Clone, Copy, Debug)]
pub enum SideAction {
    SetVolume(u32),
    SetMute(bool),
}

/// The volume level a side-channel computation starts from when the
/// current level could not be read.
pub const FALLBACK_VOLUME: u32 = 50;

/// The side-channel update a key asks for.  A reading that could not
/// be obtained falls back to a volume of [`FALLBACK_VOLUME`] and an
/// unmuted state.
pub open spec fn spec_side_action(
    key: Seq<char>,
    volume: Option<u32>,
    mute: Option<bool>,
) -> Option<SideAction> {
    let v = match volume {
        Option::Some(v) => v,
        Option::None => FALLBACK_VOLUME,
    };
    let m = match mute {
        Option::Some(m) => m,
        Option::None => false,
    };
    if key == "KEY_VOLUME_UP"@ {
        Option::Some(SideAction::SetVolume(spec_volume_up(v)))
    } else if key == "KEY_VOLUME_DOWN"@ {
        Option::Some(SideAction::SetVolume(spec_volume_down(v)))
    } else if key == "KEY_MUTE"@ {
        Option::Some(SideAction::SetMute(!m))
    } else {
        Option::None
    }
}

/// The persisted-state update for `key_code`, given the current
/// readings of the volume level and the mute flag (each absent when
/// its read failed).
///
/// Volume keys step the persisted level by [`crate::VOLUME_STEP`],
/// clamped to the range 0 to 100; the mute key toggles the persisted
/// mute flag; every other key asks for no update.  Performing the
/// update (and absorbing its failure) is the caller's business: its
/// outcome never blocks key delivery.
pub fn side_channel_action(key_code: &str, current_volume: Option<u32>, current_mute: Option<
    bool,
>) -> (r: Option<SideAction>)
    ensures
        r == spec_side_action(key_code@, current_volume, current_mute),
{
    if str_eq(key_code, "KEY_VOLUME_UP") {
        let v = match current_volume {
            Option::Some(v) => v,
            Option::None => FALLBACK_VOLUME,
        };
        Option::Some(SideAction::SetVolume(volume_after_up(v)))
    } else if str_eq(key_code, "KEY_VOLUME_DOWN") {
        let v = match current_volume {
            Option::Some(v) => v,
            Option::None => FALLBACK_VOLUME,
        };
        Option::Some(SideAction::SetVolume(volume_after_down(v)))
    } else if str_eq(key_code, "KEY_MUTE") {
        let m = match current_mute {
            Option::Some(m) => m,
            Option::None => false,
        };
        Option::Some(SideAction::SetMute(!m))
    } else {
        Option::None
    }
}

/// Under the built-in pattern set, the configurable focus resolution
/// agrees with the fixed one on every stacking order.
pub proof fn lemma_standard_focus_agrees(p: SystemClientPolicy, clients: Seq<Seq<char>>)
    requires
        p.prefixes.deep_view() == seq!["subtec_"@, "test-"@],
        p.exact.deep_view() == seq!["rdkshell_display"@],
    ensures
        first_allowed_under(p.prefixes.deep_view(), p.exact.deep_view(), clients) == first_allowed(
            clients,
            |c: Seq<char>| spec_is_system_client(c),
        ),
    decreases clients.len(),
{
    if clients.len() > 0 {
        lemma_standard_policy_agrees(p, clients[0]);
        if spec_is_system_client(clients[0]) {
            lemma_standard_focus_agrees(p, clients.drop_first());
        }
    }
}

} // verus!
