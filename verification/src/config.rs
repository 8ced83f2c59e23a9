//! Configuration for AWS OpenTelemetry instrumentation.
use vstd::prelude::*;

verus! {

/// Configuration for AWS OpenTelemetry instrumentation.
#[derive(Debug, Clone, Copy, PartialEq, Eq, Structural)]
pub struct AwsOtelConfig {
    /// Whether to capture request body in spans.
    pub capture_request_body: bool,
    /// Whether to capture response body in spans.
    pub capture_response_body: bool,
    /// Maximum length for attribute values (0 = no limit).
    pub max_attribute_length: usize,
    /// Whether to capture retry information.
    pub capture_retry_info: bool,
    /// Whether to capture error details.
    pub capture_error_details: bool,
}

impl AwsOtelConfig {
    /// The configuration that `default` gives: no bodies captured, attribute
    /// values limited to 1024 characters, retry information and error details
    /// captured.
    pub open spec fn default_spec() -> AwsOtelConfig {
        AwsOtelConfig {
            capture_request_body: false,
            capture_response_body: false,
            max_attribute_length: 1024,
            capture_retry_info: true,
            capture_error_details: true,
        }
    }

    /// This configuration with `capture_request_body` set to `capture`.
    pub open spec fn set_capture_request_body(self, capture: bool) -> AwsOtelConfig {
        AwsOtelConfig { capture_request_body: capture, ..self }
    }

    /// This configuration with `capture_response_body` set to `capture`.
    pub open spec fn set_capture_response_body(self, capture: bool) -> AwsOtelConfig {
        AwsOtelConfig { capture_response_body: capture, ..self }
    }

    /// This configuration with `max_attribute_length` set to `length`.
    pub open spec fn set_max_attribute_length(self, length: usize) -> AwsOtelConfig {
        AwsOtelConfig { max_attribute_length: length, ..self }
    }

    /// This configuration with `capture_retry_info` set to `capture`.
    pub open spec fn set_capture_retry_info(self, capture: bool) -> AwsOtelConfig {
        AwsOtelConfig { capture_retry_info: capture, ..self }
    }

    /// This configuration with `capture_error_details` set to `capture`.
    pub open spec fn set_capture_error_details(self, capture: bool) -> AwsOtelConfig {
        AwsOtelConfig { capture_error_details: capture, ..self }
    }

    /// Create a new configuration builder, which starts from the default
    /// configuration.
    pub fn builder() -> (b: AwsOtelConfigBuilder)
        ensures
            b@ == AwsOtelConfig::default_spec(),
    {
        AwsOtelConfigBuilder::default()
    }

    /// Set whether to capture request body.
    pub fn with_capture_request_body(self, capture: bool) -> (r: AwsOtelConfig)
        ensures
            r == self.set_capture_request_body(capture),
    {
        let mut c = self;
        c.capture_request_body = capture;
        c
    }

    /// Set whether to capture response body.
    pub fn with_capture_response_body(self, capture: bool) -> (r: AwsOtelConfig)
        ensures
            r == self.set_capture_response_body(capture),
    {
        let mut c = self;
        c.capture_response_body = capture;
        c
    }

    /// Set maximum attribute length.
    pub fn with_max_attribute_length(self, length: usize) -> (r: AwsOtelConfig)
        ensures
            r == self.set_max_attribute_length(length),
    {
        let mut c = self;
        c.max_attribute_length = length;
        c
    }

    /// Set whether to capture retry information.
    pub fn with_capture_retry_info(self, capture: bool) -> (r: AwsOtelConfig)
        ensures
            r == self.set_capture_retry_info(capture),
    {
        let mut c = self;
        c.capture_retry_info = capture;
        c
    }

    /// Set whether to capture error details.
    pub fn with_capture_error_details(self, capture: bool) -> (r: AwsOtelConfig)
        ensures
            r == self.set_capture_error_details(capture),
    {
        let mut c = self;
        c.capture_error_details = capture;
        c
    }
}

impl Default for AwsOtelConfig {
    fn default() -> (r: AwsOtelConfig)
        ensures
            r == AwsOtelConfig::default_spec(),
    {
        AwsOtelConfig {
            capture_request_body: false,
            capture_response_body: false,
            max_attribute_length: 1024,
            capture_retry_info: true,
            capture_error_details: true,
        }
    }
}

/// Builder for [`AwsOtelConfig`].
#[derive(Debug)]
pub struct AwsOtelConfigBuilder {
    config: AwsOtelConfig,
}

impl View for AwsOtelConfigBuilder {
    type V = AwsOtelConfig;

    /// The configuration that `build` would give now.
    closed spec fn view(&self) -> AwsOtelConfig {
        self.config
    }
}

impl Default for AwsOtelConfigBuilder {
    fn default() -> (b: AwsOtelConfigBuilder)
        ensures
            b@ == AwsOtelConfig::default_spec(),
    {
        AwsOtelConfigBuilder { config: AwsOtelConfig::default() }
    }
}

impl AwsOtelConfigBuilder {
    /// Set whether to capture request body.
    pub fn with_capture_request_body(self, capture: bool) -> (b: AwsOtelConfigBuilder)
        ensures
            b@ == self@.set_capture_request_body(capture),
    {
        let mut b = self;
        b.config.capture_request_body = capture;
        b
    }

    /// Set whether to capture response body.
    pub fn with_capture_response_body(self, capture: bool) -> (b: AwsOtelConfigBuilder)
        ensures
            b@ == self@.set_capture_response_body(capture),
    {
        let mut b = self;
        b.config.capture_response_body = capture;
        b
    }

    /// Set maximum attribute length.
    pub fn with_max_attribute_length(self, length: usize) -> (b: AwsOtelConfigBuilder)
        ensures
            b@ == self@.set_max_attribute_length(length),
    {
        let mut b = self;
        b.config.max_attribute_length = length;
        b
    }

    /// Set whether to capture retry information.
    pub fn with_capture_retry_info(self, capture: bool) -> (b: AwsOtelConfigBuilder)
        ensures
            b@ == self@.set_capture_retry_info(capture),
    {
        let mut b = self;
        b.config.capture_retry_info = capture;
        b
    }

    /// Set whether to capture error details.
    pub fn with_capture_error_details(self, capture: bool) -> (b: AwsOtelConfigBuilder)
        ensures
            b@ == self@.set_capture_error_details(capture),
    {
        let mut b = self;
        b.config.capture_error_details = capture;
        b
    }

    /// Build the configuration.
    pub fn build(self) -> (c: AwsOtelConfig)
        ensures
            c == self@,
    {
        self.config
    }
}

/// Setting a field twice keeps only the second value.
pub proof fn lemma_last_setting_wins(c: AwsOtelConfig, a: bool, b: bool, m: usize, n: usize)
    ensures
        c.set_capture_request_body(a).set_capture_request_body(b) == c.set_capture_request_body(b),
        c.set_capture_response_body(a).set_capture_response_body(b) == c.set_capture_response_body(b),
        c.set_max_attribute_length(m).set_max_attribute_length(n) == c.set_max_attribute_length(n),
        c.set_capture_retry_info(a).set_capture_retry_info(b) == c.set_capture_retry_info(b),
        c.set_capture_error_details(a).set_capture_error_details(b) == c.set_capture_error_details(b),
{
}

/// Setting a field to the value it holds changes nothing.
pub proof fn lemma_setting_current_value_keeps_config(c: AwsOtelConfig)
    ensures
        c.set_capture_request_body(c.capture_request_body) == c,
        c.set_capture_response_body(c.capture_response_body) == c,
        c.set_max_attribute_length(c.max_attribute_length) == c,
        c.set_capture_retry_info(c.capture_retry_info) == c,
        c.set_capture_error_details(c.capture_error_details) == c,
{
}

/// Settings of different fields can be made in either order.
pub proof fn lemma_settings_commute(c: AwsOtelConfig, a: bool, b: bool, n: usize)
    ensures
        c.set_capture_request_body(a).set_capture_response_body(b) == c.set_capture_response_body(
            b,
        ).set_capture_request_body(a),
        c.set_capture_request_body(a).set_max_attribute_length(n) == c.set_max_attribute_length(
            n,
        ).set_capture_request_body(a),
        c.set_capture_request_body(a).set_capture_retry_info(b) == c.set_capture_retry_info(
            b,
        ).set_capture_request_body(a),
        c.set_capture_request_body(a).set_capture_error_details(b) == c.set_capture_error_details(
            b,
        ).set_capture_request_body(a),
        c.set_capture_response_body(a).set_max_attribute_length(n) == c.set_max_attribute_length(
            n,
        ).set_capture_response_body(a),
        c.set_capture_response_body(a).set_capture_retry_info(b) == c.set_capture_retry_info(
            b,
        ).set_capture_response_body(a),
        c.set_capture_response_body(a).set_capture_error_details(b) == c.set_capture_error_details(
            b,
        ).set_capture_response_body(a),
        c.set_max_attribute_length(n).set_capture_retry_info(b) == c.set_capture_retry_info(
            b,
        ).set_max_attribute_length(n),
        c.set_max_attribute_length(n).set_capture_error_details(b) == c.set_capture_error_details(
            b,
        ).set_max_attribute_length(n),
        c.set_capture_retry_info(a).set_capture_error_details(b) == c.set_capture_error_details(
            b,
        ).set_capture_retry_info(a),
{
}

/// The default configuration captures neither body, limits attribute values
/// to 1024 characters, and captures retry information and error details.
pub proof fn lemma_default_values()
    ensures
        !AwsOtelConfig::default_spec().capture_request_body,
        !AwsOtelConfig::default_spec().capture_response_body,
        AwsOtelConfig::default_spec().max_attribute_length == 1024,
        AwsOtelConfig::default_spec().capture_retry_info,
        AwsOtelConfig::default_spec().capture_error_details,
{
}

/// Each setting sets its own field to the given value and keeps every other
/// field.
pub proof fn lemma_setting_changes_one_field(c: AwsOtelConfig, b: bool, n: usize)
    ensures
        ({
            let d = c.set_capture_request_body(b);
            &&& d.capture_request_body == b
            &&& d.capture_response_body == c.capture_response_body
            &&& d.max_attribute_length == c.max_attribute_length
            &&& d.capture_retry_info == c.capture_retry_info
            &&& d.capture_error_details == c.capture_error_details
        }),
        ({
            let d = c.set_capture_response_body(b);
            &&& d.capture_request_body == c.capture_request_body
            &&& d.capture_response_body == b
            &&& d.max_attribute_length == c.max_attribute_length
            &&& d.capture_retry_info == c.capture_retry_info
            &&& d.capture_error_details == c.capture_error_details
        }),
        ({
            let d = c.set_max_attribute_length(n);
            &&& d.capture_request_body == c.capture_request_body
            &&& d.capture_response_body == c.capture_response_body
            &&& d.max_attribute_length == n
            &&& d.capture_retry_info == c.capture_retry_info
            &&& d.capture_error_details == c.capture_error_details
        }),
        ({
            let d = c.set_capture_retry_info(b);
            &&& d.capture_request_body == c.capture_request_body
            &&& d.capture_response_body == c.capture_response_body
            &&& d.max_attribute_length == c.max_attribute_length
            &&& d.capture_retry_info == b
            &&& d.capture_error_details == c.capture_error_details
        }),
        ({
            let d = c.set_capture_error_details(b);
            &&& d.capture_request_body == c.capture_request_body
            &&& d.capture_response_body == c.capture_response_body
            &&& d.max_attribute_length == c.max_attribute_length
            &&& d.capture_retry_info == c.capture_retry_info
            &&& d.capture_error_details == b
        }),
{
}

} // verus!
