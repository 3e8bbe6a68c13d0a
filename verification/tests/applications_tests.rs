use rdk_bridge::applications::{list_applications, map_app_type};

#[test]
fn recognized_types_map_in_order() {
    let types = vec![
        "YouTube".to_string(),
        "Netflix".to_string(),
        "Unknown".to_string(),
    ];
    let apps = list_applications(&types);
    assert_eq!(apps.len(), 2);
    assert_eq!(apps[0].app_id, "YouTube");
    assert_eq!(apps[1].app_id, "Netflix");
}

#[test]
fn amazon_maps_to_primevideo() {
    assert_eq!(map_app_type("Amazon"), Some("PrimeVideo".to_string()));
    let types = vec!["Amazon".to_string(), "YouTube".to_string()];
    let apps = list_applications(&types);
    assert_eq!(apps.len(), 2);
    assert_eq!(apps[0].app_id, "PrimeVideo");
    assert_eq!(apps[1].app_id, "YouTube");
}

#[test]
fn unrecognized_types_are_dropped() {
    assert_eq!(map_app_type("Hulu"), None);
    let types = vec!["Hulu".to_string(), "".to_string()];
    let apps = list_applications(&types);
    assert_eq!(apps.len(), 0);
}

#[test]
fn empty_type_list_gives_empty_application_list() {
    let apps = list_applications(&Vec::new());
    assert_eq!(apps.len(), 0);
}
