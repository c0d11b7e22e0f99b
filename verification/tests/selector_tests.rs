use rust_pilot::selector::{
    get_android_element_by, get_ios_element_by, selector_for_tap_option, AndroidElementSelector,
    BackendQuery, IosElementSelector,
};
use rust_pilot::flow::TapOnOption;

fn empty_option() -> TapOnOption {
    TapOnOption {
        id: None,
        text: None,
        optional: None,
        index: None,
        instance: None,
        className: None,
        description: None,
        hint: None,
    }
}

#[test]
fn test_android_element_selector_index() {
    let selector = AndroidElementSelector::Index { index: 5 };
    let by = get_android_element_by(selector);

    let by_debug = format!("{:?}", by);
    assert!(by_debug.contains("index(5)"));
}

#[test]
fn test_android_element_selector_accessibility_id() {
    let selector = AndroidElementSelector::AccessibilityId {
        accessibilityId: "test_id".to_string(),
    };
    let by = get_android_element_by(selector);

    let by_debug = format!("{:?}", by);
    assert!(by_debug.contains("test_id"));
}

#[test]
fn test_android_element_selector_xpath() {
    let selector = AndroidElementSelector::Xpath {
        xpath: "//android.widget.Button".to_string(),
    };
    let by = get_android_element_by(selector);

    let by_debug = format!("{:?}", by);
    assert!(by_debug.contains("//android.widget.Button"));
}

#[test]
fn test_android_element_selector_text() {
    let selector = AndroidElementSelector::Text { text: "Submit".to_string() };
    let by = get_android_element_by(selector);

    let by_debug = format!("{:?}", by);
    assert!(by_debug.contains("Submit"));
}

#[test]
fn test_android_element_selector_description() {
    let selector = AndroidElementSelector::Description {
        description: "Submit button".to_string(),
    };
    let by = get_android_element_by(selector);

    let by_debug = format!("{:?}", by);
    assert!(by_debug.contains("Submit button"));
}

#[test]
fn test_android_element_selector_hint() {
    let selector = AndroidElementSelector::Hint { hint: "Enter email".to_string() };
    let by = get_android_element_by(selector);

    let by_debug = format!("{:?}", by);
    assert!(by_debug.contains("Enter email"));
}

#[test]
fn test_android_element_selector_id_with_index() {
    let selector = AndroidElementSelector::IdWithIndex {
        id: "com.example.app:id/button".to_string(),
        index: 2,
    };
    let by = get_android_element_by(selector);

    let by_debug = format!("{:?}", by);
    assert!(by_debug.contains("com.example.app:id/button"));
    assert!(by_debug.contains("index(2)"));
}

#[test]
fn test_android_element_selector_id() {
    let selector = AndroidElementSelector::Id { id: "com.example.app:id/button".to_string() };
    let by = get_android_element_by(selector);

    let by_debug = format!("{:?}", by);
    assert!(by_debug.contains("com.example.app:id/button"));
}

#[test]
fn test_android_element_selector_class_name_with_instance() {
    let selector = AndroidElementSelector::ClassName {
        className: "android.widget.Button".to_string(),
        instance: Some(3),
    };
    let by = get_android_element_by(selector);

    let by_debug = format!("{:?}", by);
    assert!(by_debug.contains("android.widget.Button"));
    assert!(by_debug.contains("instance(3)"));
}

#[test]
fn test_android_element_selector_class_name_without_instance() {
    let selector = AndroidElementSelector::ClassName {
        className: "android.widget.Button".to_string(),
        instance: None,
    };
    let by = get_android_element_by(selector);

    let by_debug = format!("{:?}", by);
    assert!(by_debug.contains("android.widget.Button"));
}

#[test]
fn test_text_selector_exact_query() {
    let q = get_android_element_by(AndroidElementSelector::Text { text: "Login".to_string() });
    assert_eq!(
        q,
        BackendQuery::UiAutomator("new UiSelector().textMatches(\"Login\");".to_string())
    );
}

#[test]
fn test_resolution_is_deterministic() {
    let a = get_android_element_by(AndroidElementSelector::IdWithIndex {
        id: "app:id/x".to_string(),
        index: 7,
    });
    let b = get_android_element_by(AndroidElementSelector::IdWithIndex {
        id: "app:id/x".to_string(),
        index: 7,
    });
    assert_eq!(a, b);
}

#[test]
fn test_ios_selector_queries() {
    let q = get_ios_element_by(IosElementSelector::Xpath("//XCUIElementTypeButton".to_string()));
    assert_eq!(q, BackendQuery::Xpath("//XCUIElementTypeButton".to_string()));
    let q = get_ios_element_by(IosElementSelector::ClassName("XCUIElementTypeCell".to_string()));
    assert_eq!(q, BackendQuery::ClassName("XCUIElementTypeCell".to_string()));
}

#[test]
fn test_tap_option_precedence_id_over_text() {
    let mut o = empty_option();
    o.id = Some("app:id/go".to_string());
    o.text = Some("Go".to_string());
    let sel = selector_for_tap_option(&o).unwrap();
    assert_eq!(sel, AndroidElementSelector::Id { id: "app:id/go".to_string() });
}

#[test]
fn test_tap_option_precedence_id_with_index() {
    let mut o = empty_option();
    o.id = Some("app:id/go".to_string());
    o.index = Some(4);
    let sel = selector_for_tap_option(&o).unwrap();
    assert_eq!(
        sel,
        AndroidElementSelector::IdWithIndex { id: "app:id/go".to_string(), index: 4 }
    );
}

#[test]
fn test_tap_option_precedence_description_over_class_name() {
    let mut o = empty_option();
    o.description = Some("Back".to_string());
    o.className = Some("android.widget.Button".to_string());
    let sel = selector_for_tap_option(&o).unwrap();
    assert_eq!(sel, AndroidElementSelector::Description { description: "Back".to_string() });
}

#[test]
fn test_tap_option_text_is_last_resort() {
    let mut o = empty_option();
    o.text = Some("Go".to_string());
    let sel = selector_for_tap_option(&o).unwrap();
    assert_eq!(sel, AndroidElementSelector::Text { text: "Go".to_string() });
}

#[test]
fn test_tap_option_optional_is_unsupported() {
    let mut o = empty_option();
    o.optional = Some(true);
    o.text = Some("Go".to_string());
    assert!(selector_for_tap_option(&o).is_none());
}

#[test]
fn test_tap_option_empty_is_unsupported() {
    assert!(selector_for_tap_option(&empty_option()).is_none());
}
