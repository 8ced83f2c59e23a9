# opentelemetry-aws-sdk

OpenTelemetry instrumentation for the AWS SDK for Rust, with its decisions
verified in Verus.

- `src/config.rs`: `AwsOtelConfig` and its builder; each setter changes one
  field, and laws state that settings commute and that the last one wins.
- `src/attributes.rs`: the S3, DynamoDB, SQS, SNS and Lambda attribute
  builders. Each takes the operation name and the values it reads of the
  operation's input, and its contract gives the exact list of attributes.
- `src/interceptor.rs`: the interceptor's configuration and its registry of
  attribute builders by service (a map, with laws for registering and looking
  up); the attributes of an attempt's span (service, operation, region,
  request id, and error details, retry information and bodies as the
  configuration asks, every string value cut to the configured length, with
  laws for each flag and for the limit); the span's name and status.
- `src/text.rs`: text comparison, the last piece of a separated text, and
  decimal digits, each against a spec function.
- `app/`: the AWS SDK `Intercept` hooks, reading the SDK's input types into
  the library's, and handing attributes and statuses to OpenTelemetry.
