//! Verified core of an OpenTelemetry instrumentation for the AWS SDK for Rust.
use vstd::prelude::*;

pub mod attribute_laws;
pub mod attributes;
pub mod config;
pub mod interceptor;
pub mod text;

pub use attributes::{
    Attribute, AttributeValue, DynamoDbAttributeBuilder, DynamoDbInput, LambdaAttributeBuilder,
    LambdaInput, S3AttributeBuilder, S3Input, SnsAttributeBuilder, SnsInput, SqsAttributeBuilder,
    SqsInput,
};
pub use config::{AwsOtelConfig, AwsOtelConfigBuilder};
pub use interceptor::{AwsOtelInterceptor, ServiceAttributeBuilder};

verus! {

/// The instrumentation scope name used for all spans created by this crate.
pub const INSTRUMENTATION_SCOPE_NAME: &'static str = "opentelemetry-aws-sdk";

/// The instrumentation scope version.
pub const INSTRUMENTATION_SCOPE_VERSION: &'static str = "0.1.0";

} // verus!
