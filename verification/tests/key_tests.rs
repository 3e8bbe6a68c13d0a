use rdk_bridge::error::DabError;
use rdk_bridge::key::{
    focused_client_under, get_focused_client, is_system_client, needs_direct_injection,
    side_channel_action, volume_after_down, volume_after_up, SideAction, SystemClientPolicy,
    ZOrderReply,
};
use rdk_bridge::key_press::{plan_key_press, require_key_code, validate_key_press};
use rdk_bridge::long_key_press::{
    plan_long_key_press, remaining_wait, validate_long_key_press,
};
use rdk_bridge::rdk::{method_name, RdkMethod};

#[test]
fn direct_injection_keys_are_the_volume_and_mute_keys() {
    assert!(needs_direct_injection("KEY_VOLUME_UP"));
    assert!(needs_direct_injection("KEY_VOLUME_DOWN"));
    assert!(needs_direct_injection("KEY_MUTE"));
    assert!(!needs_direct_injection("KEY_HOME"));
    assert!(!needs_direct_injection(""));
}

#[test]
fn system_clients_match_prefixes_and_exact_name() {
    assert!(is_system_client("subtec_overlay"));
    assert!(is_system_client("test-runner"));
    assert!(is_system_client("rdkshell_display"));
    assert!(!is_system_client("YouTube"));
    assert!(!is_system_client("rdkshell_display2"));
}

#[test]
fn focused_client_skips_system_clients() {
    let reply = Some(ZOrderReply {
        clients: vec![
            "subtec_x".to_string(),
            "test-1".to_string(),
            "YouTube".to_string(),
        ],
        success: true,
    });
    assert_eq!(get_focused_client(&reply), Some("YouTube".to_string()));
}

#[test]
fn focused_client_absent_on_failed_call_or_no_candidate() {
    assert_eq!(get_focused_client(&None), None);
    let failed = Some(ZOrderReply {
        clients: vec!["YouTube".to_string()],
        success: false,
    });
    assert_eq!(get_focused_client(&failed), None);
    let all_system = Some(ZOrderReply {
        clients: vec!["subtec_a".to_string(), "rdkshell_display".to_string()],
        success: true,
    });
    assert_eq!(get_focused_client(&all_system), None);
}

#[test]
fn stacking_order_resolves_past_overlay_clients() {
    let policy = SystemClientPolicy {
        prefixes: vec![
            "subtec_".to_string(),
            "test-".to_string(),
            "overlay".to_string(),
        ],
        exact: vec!["rdkshell_display".to_string()],
    };
    let reply = Some(ZOrderReply {
        clients: vec![
            "overlayA(system)".to_string(),
            "rdkshell_display".to_string(),
            "appX".to_string(),
        ],
        success: true,
    });
    assert_eq!(focused_client_under(&policy, &reply), Some("appX".to_string()));
}

#[test]
fn standard_policy_agrees_with_builtin_classification() {
    let policy = SystemClientPolicy::standard();
    for c in ["subtec_x", "test-y", "rdkshell_display", "appX", "sub"] {
        assert_eq!(policy.matches(c), is_system_client(c));
    }
}

#[test]
fn volume_up_steps_and_clamps() {
    assert_eq!(volume_after_up(98), 100);
    assert_eq!(volume_after_up(50), 55);
    assert_eq!(volume_after_up(100), 100);
}

#[test]
fn volume_down_steps_and_clamps() {
    assert_eq!(volume_after_down(3), 0);
    assert_eq!(volume_after_down(50), 45);
    assert_eq!(volume_after_down(0), 0);
}

#[test]
fn side_channel_steps_volume_with_clamping() {
    assert_eq!(
        side_channel_action("KEY_VOLUME_UP", Some(98), None),
        Some(SideAction::SetVolume(100))
    );
    assert_eq!(
        side_channel_action("KEY_VOLUME_DOWN", Some(3), None),
        Some(SideAction::SetVolume(0))
    );
}

#[test]
fn side_channel_falls_back_when_readings_fail() {
    assert_eq!(
        side_channel_action("KEY_VOLUME_UP", None, None),
        Some(SideAction::SetVolume(55))
    );
    assert_eq!(
        side_channel_action("KEY_MUTE", None, None),
        Some(SideAction::SetMute(true))
    );
}

#[test]
fn side_channel_toggles_mute_and_ignores_other_keys() {
    assert_eq!(
        side_channel_action("KEY_MUTE", None, Some(true)),
        Some(SideAction::SetMute(false))
    );
    assert_eq!(side_channel_action("KEY_HOME", Some(40), Some(false)), None);
}

#[test]
fn empty_key_name_is_a_validation_error() {
    let r = validate_key_press("");
    match r {
        Err(DabError::Err400(m)) => assert_eq!(m, "request missing 'keyCode' parameter"),
        _ => panic!("expected a validation error"),
    }
    let r = validate_long_key_press("", 100);
    assert!(matches!(r, Err(DabError::Err400(_))));
}

#[test]
fn zero_duration_is_a_validation_error() {
    let r = validate_long_key_press("KEY_HOME", 0);
    match r {
        Err(DabError::Err400(m)) => assert_eq!(m, "request missing 'durationMs' parameter"),
        _ => panic!("expected a validation error"),
    }
}

#[test]
fn unsupported_key_is_rejected_for_both_press_kinds() {
    let r = validate_key_press("KEY_FAST_FORWARD");
    match r {
        Err(DabError::Err400(m)) => assert_eq!(m, "'KEY_FAST_FORWARD' not supported"),
        _ => panic!("expected a validation error"),
    }
    let r = validate_long_key_press("KEY_FAST_FORWARD", 500);
    assert!(matches!(r, Err(DabError::Err400(_))));
}

#[test]
fn supported_requests_validate() {
    assert!(validate_key_press("KEY_HOME").is_ok());
    assert!(validate_long_key_press("KEY_HOME", 1500).is_ok());
}

#[test]
fn unresolved_keycode_is_fatal() {
    let r = require_key_code(None);
    match r {
        Err(DabError::Err400(m)) => assert_eq!(m, "keyCode' not found"),
        _ => panic!("expected a validation error"),
    }
    assert!(matches!(require_key_code(Some(36)), Ok(36)));
}

#[test]
fn single_press_plans_direct_injection_to_focused_client() {
    let focused = Some("YouTube".to_string());
    let plan = plan_key_press("KEY_VOLUME_UP", 175, &focused).expect("an injection is planned");
    assert_eq!(plan.method, RdkMethod::GenerateKey);
    assert_eq!(plan.key_code, 175);
    assert_eq!(plan.client, Some("YouTube".to_string()));
    assert_eq!(plan.delay_ms, 0);
    assert_eq!(plan.duration_ms, None);
}

#[test]
fn single_press_skips_injection_without_focus_target() {
    assert!(plan_key_press("KEY_VOLUME_UP", 175, &None).is_none());
}

#[test]
fn single_press_goes_platform_wide_for_other_keys() {
    let focused = Some("YouTube".to_string());
    let plan = plan_key_press("KEY_HOME", 36, &focused).expect("an injection is planned");
    assert_eq!(plan.method, RdkMethod::InjectKey);
    assert_eq!(plan.key_code, 36);
    assert_eq!(plan.client, None);
}

#[test]
fn long_press_always_injects_with_duration() {
    let plan = plan_long_key_press("KEY_HOME", 36, &None, 2000);
    assert_eq!(plan.method, RdkMethod::GenerateKey);
    assert_eq!(plan.key_code, 36);
    assert_eq!(plan.client, None);
    assert_eq!(plan.delay_ms, 0);
    assert_eq!(plan.duration_ms, Some(2000));
    let plan = plan_long_key_press("KEY_MUTE", 173, &Some("appX".to_string()), 800);
    assert_eq!(plan.client, Some("appX".to_string()));
    let plan = plan_long_key_press("KEY_MUTE", 173, &None, 800);
    assert_eq!(plan.client, None);
}

#[test]
fn remaining_wait_fills_up_to_the_duration_floor() {
    assert_eq!(remaining_wait(300, 1000), 700);
    assert_eq!(remaining_wait(1000, 1000), 0);
    assert_eq!(remaining_wait(2500, 1000), 0);
    for (elapsed, total) in [(0u64, 1u64), (1, 1000), (999, 1000), (1234, 1000)] {
        assert!(elapsed + remaining_wait(elapsed, total) >= total);
    }
}

#[test]
fn method_names_are_the_rdk_wire_names() {
    assert_eq!(
        method_name(&RdkMethod::AvailableTypes),
        "org.rdk.RDKShell.getAvailableTypes"
    );
    assert_eq!(
        method_name(&RdkMethod::ConnectedVideoDisplays),
        "org.rdk.DisplaySettings.getConnectedVideoDisplays"
    );
    assert_eq!(
        method_name(&RdkMethod::ScreenResolution),
        "org.rdk.RDKShell.getScreenResolution"
    );
    assert_eq!(method_name(&RdkMethod::Interfaces), "org.rdk.Network.getInterfaces");
    assert_eq!(method_name(&RdkMethod::IpSettings), "org.rdk.Network.getIPSettings");
    assert_eq!(method_name(&RdkMethod::ZOrder), "org.rdk.RDKShell.1.getZOrder");
    assert_eq!(method_name(&RdkMethod::InjectKey), "org.rdk.RDKShell.1.injectKey");
    assert_eq!(method_name(&RdkMethod::GenerateKey), "org.rdk.RDKShell.1.generateKey");
}
