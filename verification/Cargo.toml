[package]
name = "opentelemetry-aws-sdk"
version = "0.1.0"
edition = "2021"
publish = false

[dependencies]
opentelemetry = "=0.27.1"
opentelemetry-semantic-conventions = { version = "=0.27.0", features = ["semconv_experimental"] }
aws-smithy-runtime-api = { version = "=1.19.2", default-features = false, features = ["client", "http-1x"] }
aws-smithy-types = { version = "=1.9.1", default-features = false }
aws-sdk-s3 = { version = "=1.157.0", default-features = false }
aws-sdk-dynamodb = { version = "=1.136.0", default-features = false }
aws-sdk-sqs = { version = "=1.119.0", default-features = false }
aws-sdk-sns = { version = "=1.121.0", default-features = false }
aws-sdk-lambda = { version = "=1.156.0", default-features = false }
tracing = "=0.1.44"
aws-types = "=1.7.0"
aws-runtime = "=1.10.2"
