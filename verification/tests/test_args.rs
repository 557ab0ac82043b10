use boast::test_args::{classify_key, resolve_test_args, TestArgError, TestArgKey, TestArgSlots};

fn keys(ks: &[&str]) -> Vec<String> {
    ks.iter().map(|s| s.to_string()).collect()
}

#[test]
fn keys_and_their_short_names() {
    assert_eq!(classify_key("confidence"), Some(TestArgKey::Confidence));
    assert_eq!(classify_key("q"), Some(TestArgKey::Confidence));
    assert_eq!(classify_key("outlier_rate"), Some(TestArgKey::OutlierRate));
    assert_eq!(classify_key("p"), Some(TestArgKey::OutlierRate));
    assert_eq!(classify_key("pass_ratio"), Some(TestArgKey::PassRatio));
    assert_eq!(classify_key("timeout"), Some(TestArgKey::Timeout));
    assert_eq!(classify_key("Q"), None);
}

#[test]
fn full_attribute_resolves_each_setting() {
    let r = resolve_test_args(&keys(&["q", "p", "timeout", "pass_ratio"]));
    assert_eq!(
        r,
        Ok(TestArgSlots { confidence: 0, outlier_rate: 1, pass_ratio: Some(3), timeout: Some(2) })
    );
}

#[test]
fn the_last_value_of_a_setting_counts() {
    let r = resolve_test_args(&keys(&["confidence", "outlier_rate", "q"]));
    assert_eq!(
        r,
        Ok(TestArgSlots { confidence: 2, outlier_rate: 1, pass_ratio: None, timeout: None })
    );
}

#[test]
fn unknown_and_missing_keys_are_refused() {
    assert_eq!(resolve_test_args(&keys(&["q", "x", "y"])), Err(TestArgError::UnknownKey(1)));
    assert_eq!(resolve_test_args(&keys(&["p"])), Err(TestArgError::MissingConfidence));
    assert_eq!(resolve_test_args(&keys(&[])), Err(TestArgError::MissingConfidence));
    assert_eq!(resolve_test_args(&keys(&["q"])), Err(TestArgError::MissingOutlierRate));
    assert_eq!(TestArgError::UnknownKey(0).message(), "Unknown argument key");
    assert_eq!(
        TestArgError::MissingConfidence.message(),
        "Missing required argument: confidence (or q)"
    );
    assert_eq!(
        TestArgError::MissingOutlierRate.message(),
        "Missing required argument: outlier_rate (or p)"
    );
}
