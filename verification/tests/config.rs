use opentelemetry_aws_sdk::{AwsOtelConfig, AwsOtelConfigBuilder};

#[test]
fn default_config_values() {
    let c = AwsOtelConfig::default();
    assert!(!c.capture_request_body);
    assert!(!c.capture_response_body);
    assert_eq!(c.max_attribute_length, 1024);
    assert!(c.capture_retry_info);
    assert!(c.capture_error_details);
}

#[test]
fn builder_starts_from_default() {
    assert_eq!(AwsOtelConfig::builder().build(), AwsOtelConfig::default());
    assert_eq!(AwsOtelConfigBuilder::default().build(), AwsOtelConfig::default());
}

#[test]
fn builder_and_config_setters_agree() {
    let built = AwsOtelConfig::builder()
        .with_capture_request_body(true)
        .with_capture_response_body(true)
        .with_max_attribute_length(0)
        .with_capture_retry_info(false)
        .with_capture_error_details(false)
        .build();
    let direct = AwsOtelConfig::default()
        .with_capture_request_body(true)
        .with_capture_response_body(true)
        .with_max_attribute_length(0)
        .with_capture_retry_info(false)
        .with_capture_error_details(false);
    assert_eq!(built, direct);
    assert!(built.capture_request_body);
    assert!(built.capture_response_body);
    assert_eq!(built.max_attribute_length, 0);
    assert!(!built.capture_retry_info);
    assert!(!built.capture_error_details);
}

#[test]
fn setter_changes_only_its_field() {
    let c = AwsOtelConfig::default().with_capture_response_body(true);
    assert_eq!(
        c,
        AwsOtelConfig {
            capture_request_body: false,
            capture_response_body: true,
            max_attribute_length: 1024,
            capture_retry_info: true,
            capture_error_details: true,
        }
    );
}

#[test]
fn last_setting_wins() {
    let c = AwsOtelConfig::default().with_max_attribute_length(10).with_max_attribute_length(20);
    assert_eq!(c, AwsOtelConfig::default().with_max_attribute_length(20));
    let b = AwsOtelConfig::builder()
        .with_capture_retry_info(false)
        .with_capture_retry_info(true)
        .build();
    assert_eq!(b, AwsOtelConfig::default());
}

#[test]
fn settings_commute() {
    let a = AwsOtelConfig::default().with_capture_request_body(true).with_max_attribute_length(5);
    let b = AwsOtelConfig::default().with_max_attribute_length(5).with_capture_request_body(true);
    assert_eq!(a, b);
}

#[test]
fn setting_current_value_keeps_config() {
    let c = AwsOtelConfig::default();
    assert_eq!(c.clone().with_capture_error_details(c.capture_error_details), c);
}
