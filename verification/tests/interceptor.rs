use opentelemetry_aws_sdk::attributes::{Attribute, AttributeValue};
use opentelemetry_aws_sdk::interceptor::{
    attempt_span_name, attempt_span_status, default_attribute_builders, is_throttling_error_code,
    AttemptDetails, AwsOtelInterceptor, ServiceAttributeBuilder, SpanStatus,
};
use opentelemetry_aws_sdk::AwsOtelConfig;

fn text(a: &Attribute) -> (&str, &str) {
    match &a.value {
        AttributeValue::String(s) => (a.key.as_str(), s.as_str()),
        other => panic!("not a string attribute: {:?}", other),
    }
}

#[test]
fn test_interceptor_creation() {
    let interceptor = AwsOtelInterceptor::new();
    assert_eq!(interceptor.name(), "AwsOtelInterceptor");
}

#[test]
fn test_interceptor_with_config() {
    let config = AwsOtelConfig::default()
        .with_capture_request_body(true)
        .with_max_attribute_length(512);

    let interceptor = AwsOtelInterceptor::with_config(config);
    assert!(interceptor.config().capture_request_body);
    assert_eq!(interceptor.config().max_attribute_length, 512);
}

#[test]
fn new_interceptor_has_default_config_and_builders() {
    let interceptor = AwsOtelInterceptor::new();
    assert_eq!(*interceptor.config(), AwsOtelConfig::default());
    assert_eq!(interceptor.attribute_builder_count(), 5);
    assert!(matches!(interceptor.attribute_builder("s3"), Some(ServiceAttributeBuilder::S3(_))));
    assert!(matches!(
        interceptor.attribute_builder("dynamodb"),
        Some(ServiceAttributeBuilder::DynamoDb(_))
    ));
    assert!(matches!(interceptor.attribute_builder("sqs"), Some(ServiceAttributeBuilder::Sqs(_))));
    assert!(matches!(interceptor.attribute_builder("sns"), Some(ServiceAttributeBuilder::Sns(_))));
    assert!(matches!(
        interceptor.attribute_builder("lambda"),
        Some(ServiceAttributeBuilder::Lambda(_))
    ));
    assert!(interceptor.attribute_builder("ec2").is_none());
}

#[test]
fn default_builders_are_listed_once_each() {
    let builders = default_attribute_builders();
    let names: Vec<&str> = builders.iter().map(|(n, _)| n.as_str()).collect();
    assert_eq!(names, vec!["s3", "dynamodb", "sqs", "sns", "lambda"]);
}

#[test]
fn register_then_lookup_finds_the_builder() {
    let mut interceptor: AwsOtelInterceptor<u32> =
        AwsOtelInterceptor::without_attribute_builders(AwsOtelConfig::default());
    assert_eq!(interceptor.attribute_builder_count(), 0);
    interceptor.register_attribute_builder("custom", 7);
    interceptor.register_attribute_builder("other", 9);
    assert_eq!(interceptor.attribute_builder("custom"), Some(&7));
    assert_eq!(interceptor.attribute_builder("other"), Some(&9));
    assert_eq!(interceptor.attribute_builder_count(), 2);
}

#[test]
fn second_registration_replaces_the_first() {
    let mut interceptor: AwsOtelInterceptor<u32> =
        AwsOtelInterceptor::without_attribute_builders(AwsOtelConfig::default());
    interceptor.register_attribute_builder("s3", 1);
    interceptor.register_attribute_builder("s3", 2);
    assert_eq!(interceptor.attribute_builder("s3"), Some(&2));
    assert_eq!(interceptor.attribute_builder_count(), 1);
}

#[test]
fn registering_replaces_a_default_builder() {
    let mut interceptor = AwsOtelInterceptor::new();
    interceptor.register_attribute_builder(
        "s3",
        ServiceAttributeBuilder::Lambda(opentelemetry_aws_sdk::LambdaAttributeBuilder),
    );
    assert!(matches!(
        interceptor.attribute_builder("s3"),
        Some(ServiceAttributeBuilder::Lambda(_))
    ));
    assert_eq!(interceptor.attribute_builder_count(), 5);
}

#[test]
fn clone_keeps_config_and_builders() {
    let mut interceptor: AwsOtelInterceptor<u32> =
        AwsOtelInterceptor::without_attribute_builders(AwsOtelConfig::default().with_capture_retry_info(false));
    interceptor.register_attribute_builder("a", 1);
    let copy = interceptor.clone();
    assert_eq!(copy.config(), interceptor.config());
    assert_eq!(copy.attribute_builder("a"), Some(&1));
    assert_eq!(copy.attribute_builder_count(), 1);
}

fn attempt() -> AttemptDetails {
    AttemptDetails {
        service: "s3".to_string(),
        operation: "GetObject".to_string(),
        region: Some("us-east-1".to_string()),
        request_id: Some("REQ123".to_string()),
        error_code: Some("SlowDown".to_string()),
        error_message: Some("Please reduce your request rate.".to_string()),
        attempts: Some(2),
        request_body: Some("{\"a\":1}".to_string()),
        response_body: Some("<Error/>".to_string()),
    }
}

fn pairs(attrs: &[Attribute]) -> Vec<(String, String)> {
    attrs
        .iter()
        .map(|a| {
            let v = match &a.value {
                AttributeValue::String(s) => s.clone(),
                AttributeValue::I64(i) => format!("i{}", i),
                AttributeValue::Bool(b) => format!("b{}", b),
            };
            (a.key.clone(), v)
        })
        .collect()
}

fn p(k: &str, v: &str) -> (String, String) {
    (k.to_string(), v.to_string())
}

#[test]
fn span_attributes_name_service_and_operation() {
    let interceptor = AwsOtelInterceptor::new();
    let bare = AttemptDetails {
        service: "s3".to_string(),
        operation: "GetObject".to_string(),
        region: None,
        request_id: None,
        error_code: None,
        error_message: None,
        attempts: None,
        request_body: None,
        response_body: None,
    };
    let attrs = interceptor.build_span_attributes(&bare, Vec::new());
    assert_eq!(attrs.len(), 2);
    assert_eq!(text(&attrs[0]), ("aws.service", "s3"));
    assert_eq!(text(&attrs[1]), ("aws.operation", "GetObject"));
}

#[test]
fn span_attributes_with_default_config() {
    let interceptor = AwsOtelInterceptor::new();
    let attrs = interceptor.build_span_attributes(&attempt(), Vec::new());
    assert_eq!(
        pairs(&attrs),
        vec![
            p("aws.service", "s3"),
            p("aws.operation", "GetObject"),
            p("aws.region", "us-east-1"),
            p("aws.request_id", "REQ123"),
            p("aws.error.code", "SlowDown"),
            p("aws.error.message", "Please reduce your request rate."),
            p("aws.retry.attempts", "i2"),
            p("aws.retry.throttled", "btrue"),
        ]
    );
}

#[test]
fn span_attributes_follow_every_flag() {
    let config = AwsOtelConfig::default()
        .with_capture_request_body(true)
        .with_capture_response_body(true)
        .with_capture_retry_info(false)
        .with_capture_error_details(false)
        .with_max_attribute_length(0);
    let interceptor = AwsOtelInterceptor::with_config(config);
    let attrs = interceptor.build_span_attributes(&attempt(), Vec::new());
    assert_eq!(
        pairs(&attrs),
        vec![
            p("aws.service", "s3"),
            p("aws.operation", "GetObject"),
            p("aws.region", "us-east-1"),
            p("aws.request_id", "REQ123"),
            p("aws.request.body", "{\"a\":1}"),
            p("aws.response.body", "<Error/>"),
        ]
    );
}

#[test]
fn span_attributes_are_cut_to_the_limit() {
    let config = AwsOtelConfig::default().with_max_attribute_length(3);
    let interceptor = AwsOtelInterceptor::with_config(config);
    let service = vec![Attribute { key: "aws.s3.bucket".to_string(), value: AttributeValue::String("bucket".to_string()) }];
    let attrs = interceptor.build_span_attributes(&attempt(), service);
    assert_eq!(
        pairs(&attrs),
        vec![
            p("aws.service", "s3"),
            p("aws.operation", "Get"),
            p("aws.region", "us-"),
            p("aws.request_id", "REQ"),
            p("aws.error.code", "Slo"),
            p("aws.error.message", "Ple"),
            p("aws.retry.attempts", "i2"),
            p("aws.retry.throttled", "btrue"),
            p("aws.s3.bucket", "buc"),
        ]
    );
}

#[test]
fn throttling_codes_are_recognised() {
    assert!(is_throttling_error_code("ThrottlingException"));
    assert!(is_throttling_error_code("SlowDown"));
    assert!(is_throttling_error_code("EC2ThrottledException"));
    assert!(!is_throttling_error_code("AccessDenied"));
    assert!(!is_throttling_error_code(""));
    assert!(!is_throttling_error_code("throttling"));
    let mut a = attempt();
    a.error_code = Some("NoSuchKey".to_string());
    let attrs = AwsOtelInterceptor::new().build_span_attributes(&a, Vec::new());
    assert!(pairs(&attrs).contains(&p("aws.retry.throttled", "bfalse")));
}

#[test]
fn span_name_joins_service_and_operation() {
    assert_eq!(attempt_span_name("aws", "operation"), "aws.operation");
    assert_eq!(attempt_span_name("S3", "GetObject"), "S3.GetObject");
    assert_eq!(attempt_span_name("", ""), ".");
}

#[test]
fn span_status_success_for_2xx() {
    assert!(matches!(attempt_span_status(Some(200), false), SpanStatus::Success));
    assert!(matches!(attempt_span_status(Some(204), true), SpanStatus::Success));
    assert!(matches!(attempt_span_status(Some(299), true), SpanStatus::Success));
}

#[test]
fn span_status_names_failed_status_code() {
    match attempt_span_status(Some(404), true) {
        SpanStatus::Failure(m) => assert_eq!(m, "AWS operation failed with status: 404"),
        other => panic!("unexpected {:?}", other),
    }
    match attempt_span_status(Some(300), false) {
        SpanStatus::Failure(m) => assert_eq!(m, "AWS operation failed with status: 300"),
        other => panic!("unexpected {:?}", other),
    }
    match attempt_span_status(Some(199), false) {
        SpanStatus::Failure(m) => assert_eq!(m, "AWS operation failed with status: 199"),
        other => panic!("unexpected {:?}", other),
    }
    match attempt_span_status(Some(0), false) {
        SpanStatus::Failure(m) => assert_eq!(m, "AWS operation failed with status: 0"),
        other => panic!("unexpected {:?}", other),
    }
    match attempt_span_status(Some(65535), false) {
        SpanStatus::Failure(m) => assert_eq!(m, "AWS operation failed with status: 65535"),
        other => panic!("unexpected {:?}", other),
    }
}

#[test]
fn span_status_without_response() {
    match attempt_span_status(None, true) {
        SpanStatus::Failure(m) => assert_eq!(m, "AWS operation failed"),
        other => panic!("unexpected {:?}", other),
    }
    assert!(matches!(attempt_span_status(None, false), SpanStatus::Unset));
}
