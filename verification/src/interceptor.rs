//! The state of the AWS SDK OpenTelemetry interceptor, and the decisions it
//! makes for each attempt of an operation.
use vstd::prelude::*;

use crate::attributes::{
    AttributeValueView, bool_attr, int_attr, limited_attr, limit_attribute_values, limited_attrs, opt_count_attr, opt_text_attr, push_bool,
    push_opt_count, push_opt_text, push_text, text_attr, Attribute, AttributeView,
    DynamoDbAttributeBuilder, LambdaAttributeBuilder, S3AttributeBuilder, SnsAttributeBuilder,
    SqsAttributeBuilder,
};
use crate::config::AwsOtelConfig;
use crate::text::{decimal, push_decimal, same_text, truncated};

verus! {

// ---------------------------------------------------------------------------
// The registry of attribute builders
// ---------------------------------------------------------------------------

/// One of the attribute builders that this crate provides.
#[derive(Debug, Clone, Copy)]
pub enum ServiceAttributeBuilder {
    S3(S3AttributeBuilder),
    DynamoDb(DynamoDbAttributeBuilder),
    Sqs(SqsAttributeBuilder),
    Sns(SnsAttributeBuilder),
    Lambda(LambdaAttributeBuilder),
}

/// The builders that a new interceptor holds, by service name: each of this
/// crate's builders under the name of its service.
pub open spec fn default_builders() -> Map<Seq<char>, ServiceAttributeBuilder> {
    map![
        "s3"@ => ServiceAttributeBuilder::S3(S3AttributeBuilder),
        "dynamodb"@ => ServiceAttributeBuilder::DynamoDb(DynamoDbAttributeBuilder),
        "sqs"@ => ServiceAttributeBuilder::Sqs(SqsAttributeBuilder),
        "sns"@ => ServiceAttributeBuilder::Sns(SnsAttributeBuilder),
        "lambda"@ => ServiceAttributeBuilder::Lambda(LambdaAttributeBuilder),
    ]
}

/// The map that a list of (service, builder) entries stands for: a later
/// entry for a service replaces an earlier one.
pub open spec fn entries_map<B>(entries: Seq<(String, B)>) -> Map<Seq<char>, B>
    decreases entries.len(),
{
    if entries.len() == 0 {
        Map::empty()
    } else {
        entries_map(entries.drop_last()).insert(entries.last().0@, entries.last().1)
    }
}

/// No service occurs twice in the entries.
pub open spec fn distinct_services<B>(entries: Seq<(String, B)>) -> bool {
    forall|i: int, j: int|
        0 <= i < j < entries.len() ==> #[trigger] entries[i].0@ != #[trigger] entries[j].0@
}

proof fn lemma_entries_map_lookup<B>(entries: Seq<(String, B)>)
    requires
        distinct_services(entries),
    ensures
        entries_map(entries).dom().finite(),
        entries_map(entries).dom().len() == entries.len(),
        forall|k: Seq<char>|
            #[trigger] entries_map(entries).dom().contains(k) <==> exists|i: int|
                0 <= i < entries.len() && entries[i].0@ == k,
        forall|i: int|
            0 <= i < entries.len() ==> #[trigger] entries_map(entries)[entries[i].0@]
                == entries[i].1,
    decreases entries.len(),
{
    if entries.len() > 0 {
        let rest = entries.drop_last();
        assert(distinct_services(rest)) by {
            assert forall|i: int, j: int| 0 <= i < j < rest.len() implies #[trigger] rest[i].0@
                != #[trigger] rest[j].0@ by {
                assert(rest[i] == entries[i] && rest[j] == entries[j]);
            }
        }
        lemma_entries_map_lookup(rest);
        let last = entries.last();
        assert(!entries_map(rest).dom().contains(last.0@)) by {
            if entries_map(rest).dom().contains(last.0@) {
                let i = choose|i: int| 0 <= i < rest.len() && rest[i].0@ == last.0@;
                assert(entries[i].0@ != entries[entries.len() - 1].0@);
            }
        }
        assert forall|k: Seq<char>|
            #[trigger] entries_map(entries).dom().contains(k) <==> exists|i: int|
                0 <= i < entries.len() && entries[i].0@ == k by {
            if entries_map(entries).dom().contains(k) && k != last.0@ {
                let i = choose|i: int| 0 <= i < rest.len() && rest[i].0@ == k;
                assert(entries[i].0@ == k);
            }
            if exists|i: int| 0 <= i < entries.len() && entries[i].0@ == k {
                let i = choose|i: int| 0 <= i < entries.len() && entries[i].0@ == k;
                if i < entries.len() - 1 {
                    assert(rest[i].0@ == k);
                }
            }
        }
        assert forall|i: int| 0 <= i < entries.len() implies #[trigger] entries_map(entries)[entries[i].0@]
            == entries[i].1 by {
            if i < entries.len() - 1 {
                assert(rest[i] == entries[i]);
                assert(entries[i].0@ != entries[entries.len() - 1].0@);
            }
        }
    }
}

proof fn lemma_entries_map_update<B>(entries: Seq<(String, B)>, i: int, entry: (String, B))
    requires
        distinct_services(entries),
        0 <= i < entries.len(),
        entries[i].0@ == entry.0@,
    ensures
        distinct_services(entries.update(i, entry)),
        entries_map(entries.update(i, entry)) == entries_map(entries).insert(entry.0@, entry.1),
    decreases entries.len(),
{
    let updated = entries.update(i, entry);
    assert(distinct_services(updated)) by {
        assert forall|a: int, b: int| 0 <= a < b < updated.len() implies #[trigger] updated[a].0@
            != #[trigger] updated[b].0@ by {
            assert(entries[a].0@ != entries[b].0@);
        }
    }
    let rest = entries.drop_last();
    assert(distinct_services(rest)) by {
        assert forall|a: int, b: int| 0 <= a < b < rest.len() implies #[trigger] rest[a].0@
            != #[trigger] rest[b].0@ by {
            assert(rest[a] == entries[a] && rest[b] == entries[b]);
        }
    }
    if i == entries.len() - 1 {
        assert(updated.drop_last() == rest);
        assert(entries_map(updated) =~= entries_map(entries).insert(entry.0@, entry.1));
    } else {
        lemma_entries_map_update(rest, i, entry);
        assert(updated.drop_last() == rest.update(i, entry));
        assert(entries.last().0@ != entry.0@) by {
            assert(entries[i].0@ != entries[entries.len() - 1].0@);
        }
        assert(entries_map(updated) =~= entries_map(entries).insert(entry.0@, entry.1));
    }
}

/// Where `service` stands in the entries, if it does.
fn position_of<B>(entries: &Vec<(String, B)>, service: &String) -> (r: Option<usize>)
    ensures
        r matches Some(i) ==> i < entries@.len() && entries@[i as int].0@ == service@,
        r is None ==> forall|j: int| 0 <= j < entries@.len() ==> #[trigger] entries@[j].0@ != service@,
{
    let n = entries.len();
    let mut i: usize = 0;
    while i < n
        invariant
            n == entries@.len(),
            i <= n,
            forall|j: int| 0 <= j < i ==> #[trigger] entries@[j].0@ != service@,
        decreases n - i,
    {
        if entries[i].0 == *service {
            return Some(i);
        }
        i = i + 1;
    }
    None
}

/// What an interceptor holds: its configuration, and its attribute builders
/// by service name.
pub struct InterceptorView<B> {
    pub config: AwsOtelConfig,
    pub attribute_builders: Map<Seq<char>, B>,
}

/// OpenTelemetry interceptor for AWS SDK operations: its configuration and
/// the attribute builders registered for services.
#[derive(Debug)]
pub struct AwsOtelInterceptor<B> {
    config: AwsOtelConfig,
    attribute_builders: Vec<(String, B)>,
}

impl<B> View for AwsOtelInterceptor<B> {
    type V = InterceptorView<B>;

    closed spec fn view(&self) -> InterceptorView<B> {
        InterceptorView {
            config: self.config,
            attribute_builders: entries_map(self.attribute_builders@),
        }
    }
}

impl<B> AwsOtelInterceptor<B> {
    #[verifier::type_invariant]
    closed spec fn services_distinct(self) -> bool {
        distinct_services(self.attribute_builders@)
    }

    /// Create an interceptor with the given configuration and no attribute
    /// builders.
    pub fn without_attribute_builders(config: AwsOtelConfig) -> (r: Self)
        ensures
            r@.config == config,
            r@.attribute_builders == Map::<Seq<char>, B>::empty(),
    {
        AwsOtelInterceptor { config, attribute_builders: Vec::new() }
    }

    /// Register a custom attribute builder for a service, in place of any
    /// builder that the service had.
    pub fn register_attribute_builder(&mut self, service: &str, builder: B)
        ensures
            final(self)@.config == old(self)@.config,
            final(self)@.attribute_builders == old(self)@.attribute_builders.insert(
                service@,
                builder,
            ),
    {
        proof {
            use_type_invariant(&*self);
        }
        let key = String::from_str(service);
        let mut entries: Vec<(String, B)> = Vec::new();
        std::mem::swap(&mut entries, &mut self.attribute_builders);
        let ghost before = entries@;
        assert(distinct_services(before));
        match position_of(&entries, &key) {
            Some(i) => {
                proof {
                    lemma_entries_map_update(before, i as int, (key, builder));
                }
                entries.set(i, (key, builder));
            },
            None => {
                entries.push((key, builder));
                proof {
                    assert(entries@.drop_last() == before);
                    assert(distinct_services(entries@)) by {
                        assert forall|a: int, b: int| 0 <= a < b < entries@.len() implies #[trigger] entries@[a].0@
                            != #[trigger] entries@[b].0@ by {
                            assert(entries@[a] == before[a]);
                            if b < before.len() {
                                assert(entries@[b] == before[b]);
                                assert(before[a].0@ != before[b].0@);
                            } else {
                                assert(entries@[b].0@ == service@);
                                assert(before[a].0@ != service@);
                            }
                        }
                    }
                }
            },
        }
        self.attribute_builders = entries;
    }

    /// The attribute builder registered for a service, if there is one.
    pub fn attribute_builder(&self, service: &str) -> (r: Option<&B>)
        ensures
            r is Some <==> self@.attribute_builders.dom().contains(service@),
            r matches Some(b) ==> *b == self@.attribute_builders[service@],
    {
        proof {
            use_type_invariant(self);
            lemma_entries_map_lookup(self.attribute_builders@);
        }
        let key = String::from_str(service);
        match position_of(&self.attribute_builders, &key) {
            Some(i) => {
                proof {
                    assert(entries_map(self.attribute_builders@)[self.attribute_builders@[i as int].0@]
                        == self.attribute_builders@[i as int].1);
                }
                Some(&self.attribute_builders[i].1)
            },
            None => None,
        }
    }

    /// The number of services that have an attribute builder.
    pub fn attribute_builder_count(&self) -> (r: usize)
        ensures
            self@.attribute_builders.dom().finite(),
            r == self@.attribute_builders.dom().len(),
    {
        proof {
            use_type_invariant(self);
            lemma_entries_map_lookup(self.attribute_builders@);
        }
        self.attribute_builders.len()
    }

    /// The interceptor's configuration.
    pub fn config(&self) -> (r: &AwsOtelConfig)
        ensures
            *r == self@.config,
    {
        &self.config
    }

    /// The interceptor's name.
    pub fn name(&self) -> (r: &'static str)
        ensures
            r@ == "AwsOtelInterceptor"@,
    {
        "AwsOtelInterceptor"
    }

    /// Build span attributes for an attempt: what is known of the attempt,
    /// as the configuration asks for it, then the service-specific
    /// attributes, each string value cut to the configured length.
    pub fn build_span_attributes(&self, attempt: &AttemptDetails, service_attributes: Vec<
        Attribute,
    >) -> (r: Vec<Attribute>)
        ensures
            r.deep_view() == span_attributes(self@.config, *attempt, service_attributes.deep_view()),
    {
        let mut attributes: Vec<Attribute> = Vec::new();
        push_common_span_attributes(&mut attributes, &self.config, attempt);
        let ghost common = attributes.deep_view();
        let mut service_attributes = service_attributes;
        let ghost extra = service_attributes.deep_view();
        attributes.append(&mut service_attributes);
        assert(attributes.deep_view() =~= common + extra);
        limit_attribute_values(attributes, self.config.max_attribute_length)
    }
}

fn push_error_details(attrs: &mut Vec<Attribute>, config: &AwsOtelConfig, attempt: &AttemptDetails)
    ensures
        final(attrs).deep_view() == old(attrs).deep_view() + error_detail_attributes(
            *config,
            *attempt,
        ),
{
    if config.capture_error_details {
        push_opt_text(attrs, "aws.error.code", &attempt.error_code);
        push_opt_text(attrs, "aws.error.message", &attempt.error_message);
    }
    assert(attrs.deep_view() =~= old(attrs).deep_view() + error_detail_attributes(*config, *attempt));
}

fn push_retry_info(attrs: &mut Vec<Attribute>, config: &AwsOtelConfig, attempt: &AttemptDetails)
    ensures
        final(attrs).deep_view() == old(attrs).deep_view() + retry_attributes(*config, *attempt),
{
    if config.capture_retry_info {
        push_opt_count(attrs, "aws.retry.attempts", attempt.attempts);
        match &attempt.error_code {
            Some(code) => push_bool(attrs, "aws.retry.throttled", is_throttling_error_code(code.as_str())),
            None => {},
        }
    }
    assert(attrs.deep_view() =~= old(attrs).deep_view() + retry_attributes(*config, *attempt));
}

fn push_bodies(attrs: &mut Vec<Attribute>, config: &AwsOtelConfig, attempt: &AttemptDetails)
    ensures
        final(attrs).deep_view() == old(attrs).deep_view() + body_attributes(*config, *attempt),
{
    if config.capture_request_body {
        push_opt_text(attrs, "aws.request.body", &attempt.request_body);
    }
    if config.capture_response_body {
        push_opt_text(attrs, "aws.response.body", &attempt.response_body);
    }
    assert(attrs.deep_view() =~= old(attrs).deep_view() + body_attributes(*config, *attempt));
}

fn push_common_span_attributes(
    attrs: &mut Vec<Attribute>,
    config: &AwsOtelConfig,
    attempt: &AttemptDetails,
)
    ensures
        final(attrs).deep_view() == old(attrs).deep_view() + common_span_attributes(
            *config,
            *attempt,
        ),
{
    let ghost start = attrs.deep_view();
    push_text(attrs, "aws.service", attempt.service.clone());
    push_text(attrs, "aws.operation", attempt.operation.clone());
    push_opt_text(attrs, "aws.region", &attempt.region);
    push_opt_text(attrs, "aws.request_id", &attempt.request_id);
    push_error_details(attrs, config, attempt);
    push_retry_info(attrs, config, attempt);
    push_bodies(attrs, config, attempt);
    proof {
        lemma_append_parts(
            start,
            text_attr("aws.service"@, attempt.service@),
            text_attr("aws.operation"@, attempt.operation@),
            opt_text_attr("aws.region"@, attempt.region),
            opt_text_attr("aws.request_id"@, attempt.request_id),
            error_detail_attributes(*config, *attempt),
            retry_attributes(*config, *attempt),
            body_attributes(*config, *attempt),
        );
    }
}

proof fn lemma_append_parts<A>(
    start: Seq<A>,
    a: A,
    b: A,
    p: Seq<A>,
    q: Seq<A>,
    r: Seq<A>,
    s: Seq<A>,
    t: Seq<A>,
)
    ensures
        start.push(a).push(b) + p + q + r + s + t == start + (seq![a, b] + p + q + r + s + t),
{
    assert(start.push(a).push(b) + p + q + r + s + t =~= start + (seq![a, b] + p + q + r + s + t));
}

/// What is known of one attempt of an operation, as plain values.
#[derive(Debug, Clone)]
pub struct AttemptDetails {
    /// The AWS service, such as "s3".
    pub service: String,
    /// The operation, such as "GetObject".
    pub operation: String,
    /// The AWS region the client is configured for.
    pub region: Option<String>,
    /// The request id that the service gave the attempt.
    pub request_id: Option<String>,
    /// The code of the error that the service reported.
    pub error_code: Option<String>,
    /// The message of the error that the service reported.
    pub error_message: Option<String>,
    /// The number of attempts made so far, this one included.
    pub attempts: Option<u32>,
    /// The request body, as text.
    pub request_body: Option<String>,
    /// The response body, as text.
    pub response_body: Option<String>,
}

/// The error code and message, where error details are captured.
pub open spec fn error_detail_attributes(config: AwsOtelConfig, attempt: AttemptDetails) -> Seq<
    AttributeView,
> {
    if config.capture_error_details {
        opt_text_attr("aws.error.code"@, attempt.error_code) + opt_text_attr(
            "aws.error.message"@,
            attempt.error_message,
        )
    } else {
        Seq::empty()
    }
}

/// Whether an error reports throttling.
pub open spec fn throttled_attr(error_code: Option<String>) -> Seq<AttributeView> {
    match error_code {
        Some(code) => seq![bool_attr("aws.retry.throttled"@, throttling_codes().contains(code@))],
        None => Seq::empty(),
    }
}

/// The number of attempts, and whether the error reports throttling, where
/// retry information is captured.
pub open spec fn retry_attributes(config: AwsOtelConfig, attempt: AttemptDetails) -> Seq<
    AttributeView,
> {
    if config.capture_retry_info {
        opt_count_attr("aws.retry.attempts"@, attempt.attempts) + throttled_attr(attempt.error_code)
    } else {
        Seq::empty()
    }
}

/// The request and response bodies, each where it is captured.
pub open spec fn body_attributes(config: AwsOtelConfig, attempt: AttemptDetails) -> Seq<
    AttributeView,
> {
    (if config.capture_request_body {
        opt_text_attr("aws.request.body"@, attempt.request_body)
    } else {
        Seq::empty()
    }) + (if config.capture_response_body {
        opt_text_attr("aws.response.body"@, attempt.response_body)
    } else {
        Seq::empty()
    })
}

/// The service and the operation of an attempt.
pub open spec fn identity_attributes(attempt: AttemptDetails) -> Seq<AttributeView> {
    seq![
        text_attr("aws.service"@, attempt.service@),
        text_attr("aws.operation"@, attempt.operation@),
    ]
}

/// The attributes that every span has, before limits: the service, the
/// operation, the region and the request id where known, then error details,
/// retry information and bodies as the configuration asks.
pub open spec fn common_span_attributes(config: AwsOtelConfig, attempt: AttemptDetails) -> Seq<
    AttributeView,
> {
    identity_attributes(attempt) + opt_text_attr("aws.region"@, attempt.region) + opt_text_attr(
        "aws.request_id"@,
        attempt.request_id,
    ) + error_detail_attributes(config, attempt) + retry_attributes(config, attempt)
        + body_attributes(config, attempt)
}

/// The attributes of an attempt's span: the common attributes, then the
/// service-specific ones, each string value cut to the configured length.
pub open spec fn span_attributes(
    config: AwsOtelConfig,
    attempt: AttemptDetails,
    service_attributes: Seq<AttributeView>,
) -> Seq<AttributeView> {
    limited_attrs(
        common_span_attributes(config, attempt) + service_attributes,
        config.max_attribute_length,
    )
}

/// The AWS error codes that report throttling.
pub open spec fn throttling_codes() -> Seq<Seq<char>> {
    seq![
        "Throttling"@,
        "ThrottlingException"@,
        "ThrottledException"@,
        "RequestThrottledException"@,
        "TooManyRequestsException"@,
        "ProvisionedThroughputExceededException"@,
        "TransactionInProgressException"@,
        "RequestLimitExceeded"@,
        "BandwidthLimitExceeded"@,
        "LimitExceededException"@,
        "RequestThrottled"@,
        "SlowDown"@,
        "PriorRequestNotComplete"@,
        "EC2ThrottledException"@,
    ]
}

/// `aws_runtime::retries::classifiers::THROTTLING_ERRORS`: the AWS error
/// codes that the AWS SDK's retry classifier treats as throttling, which that
/// crate lists as the fourteen codes of `throttling_codes`, in that order.
#[verifier::external_body]
fn throttling_error_codes() -> (r: &'static [&'static str])
    ensures
        r@.len() == throttling_codes().len(),
        forall|i: int| 0 <= i < r@.len() ==> #[trigger] r@[i]@ == throttling_codes()[i],
{
    aws_runtime::retries::classifiers::THROTTLING_ERRORS
}

/// Whether an AWS error code reports throttling.
pub fn is_throttling_error_code(code: &str) -> (r: bool)
    ensures
        r == throttling_codes().contains(code@),
{
    let codes = throttling_error_codes();
    let n = codes.len();
    let mut i: usize = 0;
    while i < n
        invariant
            n == codes@.len(),
            n == throttling_codes().len(),
            i <= n,
            forall|j: int| 0 <= j < codes@.len() ==> #[trigger] codes@[j]@ == throttling_codes()[j],
            forall|j: int| 0 <= j < i ==> throttling_codes()[j] != code@,
        decreases n - i,
    {
        if same_text(codes[i], code) {
            assert(throttling_codes()[i as int] == code@);
            return true;
        }
        i = i + 1;
    }
    false
}

/// This crate's attribute builders, each under the name of its service.
pub fn default_attribute_builders() -> (r: Vec<(String, ServiceAttributeBuilder)>)
    ensures
        distinct_services(r@),
        entries_map(r@) == default_builders(),
{
    proof {
        reveal_strlit("s3");
        reveal_strlit("dynamodb");
        reveal_strlit("sqs");
        reveal_strlit("sns");
        reveal_strlit("lambda");
    }
    let mut r: Vec<(String, ServiceAttributeBuilder)> = Vec::new();
    let ghost m0 = r@;
    assert(entries_map(m0) == Map::<Seq<char>, ServiceAttributeBuilder>::empty());
    r.push((String::from_str("s3"), ServiceAttributeBuilder::S3(S3AttributeBuilder)));
    let ghost m1 = r@;
    assert(m1.drop_last() == m0);
    r.push((String::from_str("dynamodb"), ServiceAttributeBuilder::DynamoDb(DynamoDbAttributeBuilder)));
    let ghost m2 = r@;
    assert(m2.drop_last() == m1);
    r.push((String::from_str("sqs"), ServiceAttributeBuilder::Sqs(SqsAttributeBuilder)));
    let ghost m3 = r@;
    assert(m3.drop_last() == m2);
    r.push((String::from_str("sns"), ServiceAttributeBuilder::Sns(SnsAttributeBuilder)));
    let ghost m4 = r@;
    assert(m4.drop_last() == m3);
    r.push((String::from_str("lambda"), ServiceAttributeBuilder::Lambda(LambdaAttributeBuilder)));
    assert(r@.drop_last() == m4);
    assert(entries_map(m1) == entries_map(m0).insert("s3"@, ServiceAttributeBuilder::S3(S3AttributeBuilder)));
    assert(entries_map(m2) == entries_map(m1).insert("dynamodb"@, ServiceAttributeBuilder::DynamoDb(DynamoDbAttributeBuilder)));
    assert(entries_map(m3) == entries_map(m2).insert("sqs"@, ServiceAttributeBuilder::Sqs(SqsAttributeBuilder)));
    assert(entries_map(m4) == entries_map(m3).insert("sns"@, ServiceAttributeBuilder::Sns(SnsAttributeBuilder)));
    assert(entries_map(r@) == entries_map(m4).insert("lambda"@, ServiceAttributeBuilder::Lambda(LambdaAttributeBuilder)));
    assert(entries_map(r@) =~= default_builders());
    assert(distinct_services(r@)) by {
        assert forall|i: int, j: int| 0 <= i < j < r@.len() implies #[trigger] r@[i].0@
            != #[trigger] r@[j].0@ by {
            assert(r@[i].0@.len() != r@[j].0@.len() || r@[i].0@[1] != r@[j].0@[1]);
        }
    }
    r
}

impl AwsOtelInterceptor<ServiceAttributeBuilder> {
    /// Create a new AWS OpenTelemetry interceptor with default configuration.
    pub fn new() -> (r: Self)
        ensures
            r@.config == AwsOtelConfig::default_spec(),
            r@.attribute_builders == default_builders(),
    {
        Self::with_config(AwsOtelConfig::default())
    }

    /// Create a new AWS OpenTelemetry interceptor with the given
    /// configuration, and this crate's attribute builders registered for their
    /// services.
    pub fn with_config(config: AwsOtelConfig) -> (r: Self)
        ensures
            r@.config == config,
            r@.attribute_builders == default_builders(),
    {
        let builders = default_attribute_builders();
        AwsOtelInterceptor { config, attribute_builders: builders }
    }
}

impl Default for AwsOtelInterceptor<ServiceAttributeBuilder> {
    fn default() -> (r: Self)
        ensures
            r@.config == AwsOtelConfig::default_spec(),
            r@.attribute_builders == default_builders(),
    {
        Self::new()
    }
}

impl<B: Clone> Clone for AwsOtelInterceptor<B> {
    /// A copy of the interceptor: the same configuration, and a clone of each
    /// attribute builder under the same service.
    fn clone(&self) -> (r: Self)
        ensures
            r@.config == self@.config,
            r@.attribute_builders.dom() == self@.attribute_builders.dom(),
            forall|k: Seq<char>|
                #[trigger] r@.attribute_builders.dom().contains(k) ==> cloned::<B>(
                    self@.attribute_builders[k],
                    r@.attribute_builders[k],
                ),
    {
        proof {
            use_type_invariant(self);
        }
        let ghost src = self.attribute_builders@;
        let n = self.attribute_builders.len();
        let mut out: Vec<(String, B)> = Vec::new();
        let mut i: usize = 0;
        while i < n
            invariant
                n == src.len(),
                src == self.attribute_builders@,
                i <= n,
                out@.len() == i,
                forall|j: int| 0 <= j < i ==> #[trigger] out@[j].0@ == src[j].0@,
                forall|j: int| 0 <= j < i ==> cloned::<B>(src[j].1, #[trigger] out@[j].1),
            decreases n - i,
        {
            let entry = &self.attribute_builders[i];
            let key = entry.0.clone();
            let builder = entry.1.clone();
            let ghost before = out@;
            out.push((key, builder));
            assert forall|j: int| 0 <= j <= i implies #[trigger] out@[j].0@ == src[j].0@ by {
                if j < i {
                    assert(out@[j] == before[j]);
                    assert(before[j].0@ == src[j].0@);
                }
            }
            assert forall|j: int| 0 <= j <= i implies cloned::<B>(src[j].1, #[trigger] out@[j].1) by {
                if j < i {
                    assert(out@[j] == before[j]);
                    assert(cloned::<B>(src[j].1, before[j].1));
                }
            }
            i = i + 1;
        }
        proof {
            assert(distinct_services(src));
            assert(distinct_services(out@)) by {
                assert forall|a: int, b: int| 0 <= a < b < out@.len() implies #[trigger] out@[a].0@
                    != #[trigger] out@[b].0@ by {
                    assert(src[a].0@ != src[b].0@);
                }
            }
            lemma_entries_map_lookup(src);
            lemma_entries_map_lookup(out@);
            assert(entries_map(out@).dom() =~= entries_map(src).dom()) by {
                assert forall|k: Seq<char>| #[trigger] entries_map(out@).dom().contains(k)
                    <==> entries_map(src).dom().contains(k) by {
                    if entries_map(out@).dom().contains(k) {
                        let j = choose|j: int| 0 <= j < out@.len() && out@[j].0@ == k;
                        assert(src[j].0@ == k);
                    }
                    if entries_map(src).dom().contains(k) {
                        let j = choose|j: int| 0 <= j < src.len() && src[j].0@ == k;
                        assert(out@[j].0@ == k);
                    }
                }
            }
            assert forall|k: Seq<char>| #[trigger] entries_map(out@).dom().contains(k) implies cloned::<B>(
                entries_map(src)[k],
                entries_map(out@)[k],
            ) by {
                let j = choose|j: int| 0 <= j < out@.len() && out@[j].0@ == k;
                assert(entries_map(out@)[out@[j].0@] == out@[j].1);
                assert(entries_map(src)[src[j].0@] == src[j].1);
            }
        }
        AwsOtelInterceptor { config: self.config, attribute_builders: out }
    }
}

// ---------------------------------------------------------------------------
// Decisions for each attempt of an operation
// ---------------------------------------------------------------------------

/// The name of the span for an attempt: "Service.Operation".
pub fn attempt_span_name(service: &str, operation: &str) -> (r: String)
    ensures
        r@ == service@ + "."@ + operation@,
{
    let mut name = String::from_str(service);
    name.append(".");
    name.append(operation);
    name
}

/// The status of the span of an attempt.
#[derive(Debug, Clone)]
pub enum SpanStatus {
    /// No status is set.
    Unset,
    /// The operation succeeded.
    Success,
    /// The operation failed, with a description.
    Failure(String),
}

/// The mathematical value of a [`SpanStatus`].
pub enum SpanStatusView {
    Unset,
    Success,
    Failure(Seq<char>),
}

impl View for SpanStatus {
    type V = SpanStatusView;

    open spec fn view(&self) -> SpanStatusView {
        match self {
            SpanStatus::Unset => SpanStatusView::Unset,
            SpanStatus::Success => SpanStatusView::Success,
            SpanStatus::Failure(s) => SpanStatusView::Failure(s@),
        }
    }
}

/// Whether an HTTP status code reports success: it is in 200..300.
pub open spec fn is_success_status(code: u16) -> bool {
    200 <= code < 300
}

/// The status of an attempt's span: from the HTTP response where there is
/// one (success for a 2xx code, else an error that names the code), else an
/// error where the attempt has an output or error, else no status.
pub open spec fn attempt_status(response_status: Option<u16>, has_output_or_error: bool) -> SpanStatusView {
    match response_status {
        Some(code) => if is_success_status(code) {
            SpanStatusView::Success
        } else {
            SpanStatusView::Failure("AWS operation failed with status: "@ + decimal(code as nat))
        },
        None => if has_output_or_error {
            SpanStatusView::Failure("AWS operation failed"@)
        } else {
            SpanStatusView::Unset
        },
    }
}

/// Decide the status of an attempt's span from the status code of its HTTP
/// response, if it has one, and whether it has an output or error.
pub fn attempt_span_status(response_status: Option<u16>, has_output_or_error: bool) -> (r: SpanStatus)
    ensures
        r@ == attempt_status(response_status, has_output_or_error),
{
    match response_status {
        Some(code) => {
            if 200 <= code && code < 300 {
                SpanStatus::Success
            } else {
                let mut message = String::from_str("AWS operation failed with status: ");
                push_decimal(&mut message, code);
                SpanStatus::Failure(message)
            }
        },
        None => {
            if has_output_or_error {
                SpanStatus::Failure(String::from_str("AWS operation failed"))
            } else {
                SpanStatus::Unset
            }
        },
    }
}

// ---------------------------------------------------------------------------
// Laws
// ---------------------------------------------------------------------------

/// After a builder is registered for a service, a lookup of that service
/// finds it; lookups of other services find what they found before; the
/// number of services grows by one exactly where the service was new.
pub proof fn lemma_register_then_lookup<B>(
    builders: Map<Seq<char>, B>,
    service: Seq<char>,
    builder: B,
    other: Seq<char>,
)
    requires
        builders.dom().finite(),
    ensures
        builders.insert(service, builder).dom().contains(service),
        builders.insert(service, builder)[service] == builder,
        other != service ==> (builders.insert(service, builder).dom().contains(other)
            == builders.dom().contains(other)),
        other != service && builders.dom().contains(other) ==> builders.insert(service, builder)[other]
            == builders[other],
        builders.dom().contains(service) ==> builders.insert(service, builder).dom().len()
            == builders.dom().len(),
        !builders.dom().contains(service) ==> builders.insert(service, builder).dom().len()
            == builders.dom().len() + 1,
{
    if builders.dom().contains(service) {
        assert(builders.insert(service, builder).dom() =~= builders.dom());
    }
}

/// Registering two builders for one service keeps only the second.
pub proof fn lemma_second_registration_replaces_first<B>(
    builders: Map<Seq<char>, B>,
    service: Seq<char>,
    first: B,
    second: B,
)
    ensures
        builders.insert(service, first).insert(service, second) == builders.insert(service, second),
{
    assert(builders.insert(service, first).insert(service, second) =~= builders.insert(
        service,
        second,
    ));
}

/// The span carries the value of each field that it names, cut to the
/// configured length: the service and the operation; the region and the
/// request id where known; the error's code and message where error details
/// are captured; the number of attempts, and whether the error code is one of
/// throttling, where retry information is captured; each body where it is
/// captured; and every service-specific attribute.
pub proof fn lemma_span_carries_attempt_values(
    config: AwsOtelConfig,
    attempt: AttemptDetails,
    service_attributes: Seq<AttributeView>,
)
    ensures
        ({
            let r = span_attributes(config, attempt, service_attributes);
            let m = config.max_attribute_length;
            &&& r.contains(text_attr("aws.service"@, truncated(attempt.service@, m)))
            &&& r.contains(text_attr("aws.operation"@, truncated(attempt.operation@, m)))
            &&& attempt.region matches Some(g) ==> r.contains(
                text_attr("aws.region"@, truncated(g@, m)),
            )
            &&& attempt.request_id matches Some(q) ==> r.contains(
                text_attr("aws.request_id"@, truncated(q@, m)),
            )
            &&& config.capture_error_details ==> (attempt.error_code matches Some(c) ==> r.contains(
                text_attr("aws.error.code"@, truncated(c@, m)),
            ))
            &&& config.capture_error_details ==> (attempt.error_message matches Some(e)
                ==> r.contains(text_attr("aws.error.message"@, truncated(e@, m))))
            &&& config.capture_retry_info ==> (attempt.attempts matches Some(a) ==> r.contains(
                int_attr("aws.retry.attempts"@, a as i64),
            ))
            &&& config.capture_retry_info ==> (attempt.error_code matches Some(c) ==> r.contains(
                bool_attr("aws.retry.throttled"@, throttling_codes().contains(c@)),
            ))
            &&& config.capture_request_body ==> (attempt.request_body matches Some(b)
                ==> r.contains(text_attr("aws.request.body"@, truncated(b@, m))))
            &&& config.capture_response_body ==> (attempt.response_body matches Some(b)
                ==> r.contains(text_attr("aws.response.body"@, truncated(b@, m))))
            &&& forall|x: AttributeView| #[trigger]
                service_attributes.contains(x) ==> r.contains(limited_attr(x, m))
        }),
{
    broadcast use crate::attribute_laws::group_attribute_membership;
    let m = config.max_attribute_length;
    let all = common_span_attributes(config, attempt) + service_attributes;
    crate::attributes::lemma_limited_values_fit(all, m);
    let service = text_attr("aws.service"@, attempt.service@);
    assert(all.contains(service));
    assert(limited_attr(service, m) == text_attr("aws.service"@, truncated(attempt.service@, m)));
    let operation = text_attr("aws.operation"@, attempt.operation@);
    assert(all.contains(operation));
    assert(limited_attr(operation, m) == text_attr(
        "aws.operation"@,
        truncated(attempt.operation@, m),
    ));
    if let Some(g) = attempt.region {
        assert(all.contains(text_attr("aws.region"@, g@)));
        assert(limited_attr(text_attr("aws.region"@, g@), m) == text_attr(
            "aws.region"@,
            truncated(g@, m),
        ));
    }
    if let Some(q) = attempt.request_id {
        assert(all.contains(text_attr("aws.request_id"@, q@)));
        assert(limited_attr(text_attr("aws.request_id"@, q@), m) == text_attr(
            "aws.request_id"@,
            truncated(q@, m),
        ));
    }
    if config.capture_error_details {
        if let Some(c) = attempt.error_code {
            assert(all.contains(text_attr("aws.error.code"@, c@)));
            assert(limited_attr(text_attr("aws.error.code"@, c@), m) == text_attr(
                "aws.error.code"@,
                truncated(c@, m),
            ));
        }
        if let Some(e) = attempt.error_message {
            assert(all.contains(text_attr("aws.error.message"@, e@)));
            assert(limited_attr(text_attr("aws.error.message"@, e@), m) == text_attr(
                "aws.error.message"@,
                truncated(e@, m),
            ));
        }
    }
    if config.capture_retry_info {
        if let Some(a) = attempt.attempts {
            assert(all.contains(int_attr("aws.retry.attempts"@, a as i64)));
            assert(limited_attr(int_attr("aws.retry.attempts"@, a as i64), m) == int_attr(
                "aws.retry.attempts"@,
                a as i64,
            ));
        }
        if let Some(c) = attempt.error_code {
            let t = bool_attr("aws.retry.throttled"@, throttling_codes().contains(c@));
            assert(all.contains(t));
            assert(limited_attr(t, m) == t);
        }
    }
    if config.capture_request_body {
        if let Some(b) = attempt.request_body {
            assert(all.contains(text_attr("aws.request.body"@, b@)));
            assert(limited_attr(text_attr("aws.request.body"@, b@), m) == text_attr(
                "aws.request.body"@,
                truncated(b@, m),
            ));
        }
    }
    if config.capture_response_body {
        if let Some(b) = attempt.response_body {
            assert(all.contains(text_attr("aws.response.body"@, b@)));
            assert(limited_attr(text_attr("aws.response.body"@, b@), m) == text_attr(
                "aws.response.body"@,
                truncated(b@, m),
            ));
        }
    }
    assert forall|x: AttributeView| #[trigger] service_attributes.contains(x) implies limited_attrs(
        all,
        m,
    ).contains(limited_attr(x, m)) by {
        assert(all.contains(x));
    }
}

/// A response whose status code is outside 200..300 always marks the span as
/// failed, with a message that names the code in decimal, whatever else the
/// attempt has; without a response, an output or error marks the span as
/// failed with a message of its own, and nothing leaves it unset.
pub proof fn lemma_failure_for_every_non_2xx(code: u16, has_output_or_error: bool)
    ensures
        !(200 <= code < 300) ==> attempt_status(Some(code), has_output_or_error)
            == SpanStatusView::Failure("AWS operation failed with status: "@ + decimal(code as nat)),
        attempt_status(None, true) == SpanStatusView::Failure("AWS operation failed"@),
        attempt_status(None, false) == SpanStatusView::Unset,
{
}

/// A span's status is success exactly for a response with a 2xx status code,
/// and without a response it is never success.
pub proof fn lemma_success_exactly_for_2xx(response_status: Option<u16>, has_output_or_error: bool)
    ensures
        (attempt_status(response_status, has_output_or_error) is Success) <==> (
        response_status matches Some(code) && 200 <= code < 300),
        response_status is None && !has_output_or_error ==> attempt_status(
            response_status,
            has_output_or_error,
        ) is Unset,
{
}

/// Whether some attribute of the list has the key.
pub open spec fn has_key(attrs: Seq<AttributeView>, key: Seq<char>) -> bool {
    exists|i: int| 0 <= i < attrs.len() && #[trigger] attrs[i].key == key
}

proof fn lemma_has_key_concat(a: Seq<AttributeView>, b: Seq<AttributeView>, key: Seq<char>)
    ensures
        has_key(a + b, key) <==> has_key(a, key) || has_key(b, key),
{
    if has_key(a + b, key) {
        let i = choose|i: int| 0 <= i < (a + b).len() && #[trigger] (a + b)[i].key == key;
        if i >= a.len() {
            assert(b[i - a.len()].key == key);
        }
    }
    if has_key(a, key) {
        let i = choose|i: int| 0 <= i < a.len() && #[trigger] a[i].key == key;
        assert((a + b)[i].key == key);
    }
    if has_key(b, key) {
        let i = choose|i: int| 0 <= i < b.len() && #[trigger] b[i].key == key;
        assert((a + b)[a.len() + i].key == key);
    }
}

proof fn lemma_has_key_limited(attrs: Seq<AttributeView>, max: usize, key: Seq<char>)
    ensures
        has_key(limited_attrs(attrs, max), key) <==> has_key(attrs, key),
{
    if has_key(attrs, key) {
        let i = choose|i: int| 0 <= i < attrs.len() && #[trigger] attrs[i].key == key;
        assert(limited_attrs(attrs, max)[i].key == key);
    }
    if has_key(limited_attrs(attrs, max), key) {
        let i = choose|i: int|
            0 <= i < limited_attrs(attrs, max).len() && #[trigger] limited_attrs(attrs, max)[i].key
                == key;
        assert(attrs[i].key == key);
    }
}

/// The keys of a span's attributes are those of the common attributes and
/// those of the service-specific ones.
proof fn lemma_span_keys(
    config: AwsOtelConfig,
    attempt: AttemptDetails,
    service_attributes: Seq<AttributeView>,
    key: Seq<char>,
)
    ensures
        has_key(span_attributes(config, attempt, service_attributes), key) <==> (has_key(
            identity_attributes(attempt),
            key,
        ) || has_key(opt_text_attr("aws.region"@, attempt.region), key) || has_key(
            opt_text_attr("aws.request_id"@, attempt.request_id),
            key,
        ) || has_key(error_detail_attributes(config, attempt), key) || has_key(
            retry_attributes(config, attempt),
            key,
        ) || has_key(body_attributes(config, attempt), key) || has_key(service_attributes, key)),
{
    let head = identity_attributes(attempt);
    let r = opt_text_attr("aws.region"@, attempt.region);
    let q = opt_text_attr("aws.request_id"@, attempt.request_id);
    let e = error_detail_attributes(config, attempt);
    let t = retry_attributes(config, attempt);
    let b = body_attributes(config, attempt);
    lemma_has_key_limited(
        common_span_attributes(config, attempt) + service_attributes,
        config.max_attribute_length,
        key,
    );
    lemma_has_key_concat(common_span_attributes(config, attempt), service_attributes, key);
    lemma_has_key_concat(head + r + q + e + t, b, key);
    lemma_has_key_concat(head + r + q + e, t, key);
    lemma_has_key_concat(head + r + q, e, key);
    lemma_has_key_concat(head + r, q, key);
    lemma_has_key_concat(head, r, key);
}

/// With a length limit, every string value of a span's attributes fits in it.
pub proof fn lemma_span_values_fit_limit(
    config: AwsOtelConfig,
    attempt: AttemptDetails,
    service_attributes: Seq<AttributeView>,
)
    requires
        config.max_attribute_length != 0,
    ensures
        forall|i: int|
            0 <= i < span_attributes(config, attempt, service_attributes).len() ==> match #[trigger] span_attributes(
                config,
                attempt,
                service_attributes,
            )[i].value {
                AttributeValueView::String(s) => s.len() <= config.max_attribute_length,
                _ => true,
            },
{
    crate::attributes::lemma_limited_values_fit(
        common_span_attributes(config, attempt) + service_attributes,
        config.max_attribute_length,
    );
}

/// The span names the service and the operation, and the region and the
/// request id exactly where they are known (of keys that the
/// service-specific attributes do not use).
pub proof fn lemma_identity_attributes_present(
    config: AwsOtelConfig,
    attempt: AttemptDetails,
    service_attributes: Seq<AttributeView>,
)
    requires
        !has_key(service_attributes, "aws.region"@),
        !has_key(service_attributes, "aws.request_id"@),
    ensures
        has_key(span_attributes(config, attempt, service_attributes), "aws.service"@),
        has_key(span_attributes(config, attempt, service_attributes), "aws.operation"@),
        has_key(span_attributes(config, attempt, service_attributes), "aws.region"@) <==> attempt.region is Some,
        has_key(span_attributes(config, attempt, service_attributes), "aws.request_id"@) <==> attempt.request_id is Some,
{
    lemma_common_keys_distinct();
    lemma_span_keys(config, attempt, service_attributes, "aws.service"@);
    lemma_span_keys(config, attempt, service_attributes, "aws.operation"@);
    lemma_span_keys(config, attempt, service_attributes, "aws.region"@);
    lemma_span_keys(config, attempt, service_attributes, "aws.request_id"@);
    lemma_part_keys(config, attempt);
}

/// The span names the error's code and message exactly where error details
/// are captured and the error has them (of keys that the service-specific
/// attributes do not use).
pub proof fn lemma_error_details_follow_flag(
    config: AwsOtelConfig,
    attempt: AttemptDetails,
    service_attributes: Seq<AttributeView>,
)
    requires
        !has_key(service_attributes, "aws.error.code"@),
        !has_key(service_attributes, "aws.error.message"@),
    ensures
        has_key(span_attributes(config, attempt, service_attributes), "aws.error.code"@) <==> (
        config.capture_error_details && attempt.error_code is Some),
        has_key(span_attributes(config, attempt, service_attributes), "aws.error.message"@) <==> (
        config.capture_error_details && attempt.error_message is Some),
{
    lemma_common_keys_distinct();
    lemma_span_keys(config, attempt, service_attributes, "aws.error.code"@);
    lemma_span_keys(config, attempt, service_attributes, "aws.error.message"@);
    lemma_part_keys(config, attempt);
}

/// The span holds the request body exactly where it is captured and known,
/// and the response body likewise (of keys that the service-specific
/// attributes do not use).
pub proof fn lemma_bodies_follow_flags(
    config: AwsOtelConfig,
    attempt: AttemptDetails,
    service_attributes: Seq<AttributeView>,
)
    requires
        !has_key(service_attributes, "aws.request.body"@),
        !has_key(service_attributes, "aws.response.body"@),
    ensures
        has_key(span_attributes(config, attempt, service_attributes), "aws.request.body"@) <==> (
        config.capture_request_body && attempt.request_body is Some),
        has_key(span_attributes(config, attempt, service_attributes), "aws.response.body"@) <==> (
        config.capture_response_body && attempt.response_body is Some),
{
    lemma_common_keys_distinct();
    lemma_span_keys(config, attempt, service_attributes, "aws.request.body"@);
    lemma_span_keys(config, attempt, service_attributes, "aws.response.body"@);
    lemma_part_keys(config, attempt);
}

/// The span counts the attempts exactly where retry information is captured
/// and the count is known, and says whether an error was throttling exactly
/// where retry information is captured and there is an error code (of keys
/// that the service-specific attributes do not use).
pub proof fn lemma_retry_info_follows_flag(
    config: AwsOtelConfig,
    attempt: AttemptDetails,
    service_attributes: Seq<AttributeView>,
)
    requires
        !has_key(service_attributes, "aws.retry.attempts"@),
        !has_key(service_attributes, "aws.retry.throttled"@),
    ensures
        has_key(span_attributes(config, attempt, service_attributes), "aws.retry.attempts"@) <==> (
        config.capture_retry_info && attempt.attempts is Some),
        has_key(span_attributes(config, attempt, service_attributes), "aws.retry.throttled"@) <==> (
        config.capture_retry_info && attempt.error_code is Some),
{
    lemma_common_keys_distinct();
    lemma_span_keys(config, attempt, service_attributes, "aws.retry.attempts"@);
    lemma_span_keys(config, attempt, service_attributes, "aws.retry.throttled"@);
    lemma_part_keys(config, attempt);
}

/// The keys of the common span attributes differ from each other.
proof fn lemma_common_keys_distinct()
    ensures
        "aws.service"@ != "aws.operation"@,
        "aws.service"@ != "aws.region"@,
        "aws.service"@ != "aws.request_id"@,
        "aws.service"@ != "aws.error.code"@,
        "aws.service"@ != "aws.error.message"@,
        "aws.service"@ != "aws.retry.attempts"@,
        "aws.service"@ != "aws.retry.throttled"@,
        "aws.service"@ != "aws.request.body"@,
        "aws.service"@ != "aws.response.body"@,
        "aws.operation"@ != "aws.region"@,
        "aws.operation"@ != "aws.request_id"@,
        "aws.operation"@ != "aws.error.code"@,
        "aws.operation"@ != "aws.error.message"@,
        "aws.operation"@ != "aws.retry.attempts"@,
        "aws.operation"@ != "aws.retry.throttled"@,
        "aws.operation"@ != "aws.request.body"@,
        "aws.operation"@ != "aws.response.body"@,
        "aws.region"@ != "aws.request_id"@,
        "aws.region"@ != "aws.error.code"@,
        "aws.region"@ != "aws.error.message"@,
        "aws.region"@ != "aws.retry.attempts"@,
        "aws.region"@ != "aws.retry.throttled"@,
        "aws.region"@ != "aws.request.body"@,
        "aws.region"@ != "aws.response.body"@,
        "aws.request_id"@ != "aws.error.code"@,
        "aws.request_id"@ != "aws.error.message"@,
        "aws.request_id"@ != "aws.retry.attempts"@,
        "aws.request_id"@ != "aws.retry.throttled"@,
        "aws.request_id"@ != "aws.request.body"@,
        "aws.request_id"@ != "aws.response.body"@,
        "aws.error.code"@ != "aws.error.message"@,
        "aws.error.code"@ != "aws.retry.attempts"@,
        "aws.error.code"@ != "aws.retry.throttled"@,
        "aws.error.code"@ != "aws.request.body"@,
        "aws.error.code"@ != "aws.response.body"@,
        "aws.error.message"@ != "aws.retry.attempts"@,
        "aws.error.message"@ != "aws.retry.throttled"@,
        "aws.error.message"@ != "aws.request.body"@,
        "aws.error.message"@ != "aws.response.body"@,
        "aws.retry.attempts"@ != "aws.retry.throttled"@,
        "aws.retry.attempts"@ != "aws.request.body"@,
        "aws.retry.attempts"@ != "aws.response.body"@,
        "aws.retry.throttled"@ != "aws.request.body"@,
        "aws.retry.throttled"@ != "aws.response.body"@,
        "aws.request.body"@ != "aws.response.body"@,
{
    reveal_strlit("aws.service");
    reveal_strlit("aws.operation");
    reveal_strlit("aws.region");
    reveal_strlit("aws.request_id");
    reveal_strlit("aws.error.code");
    reveal_strlit("aws.error.message");
    reveal_strlit("aws.retry.attempts");
    reveal_strlit("aws.retry.throttled");
    reveal_strlit("aws.request.body");
    reveal_strlit("aws.response.body");
    assert("aws.service"@.len() != "aws.operation"@.len());
    assert("aws.service"@.len() != "aws.region"@.len());
    assert("aws.service"@.len() != "aws.request_id"@.len());
    assert("aws.service"@.len() != "aws.error.code"@.len());
    assert("aws.service"@.len() != "aws.error.message"@.len());
    assert("aws.service"@.len() != "aws.retry.attempts"@.len());
    assert("aws.service"@.len() != "aws.retry.throttled"@.len());
    assert("aws.service"@.len() != "aws.request.body"@.len());
    assert("aws.service"@.len() != "aws.response.body"@.len());
    assert("aws.operation"@.len() != "aws.region"@.len());
    assert("aws.operation"@.len() != "aws.request_id"@.len());
    assert("aws.operation"@.len() != "aws.error.code"@.len());
    assert("aws.operation"@.len() != "aws.error.message"@.len());
    assert("aws.operation"@.len() != "aws.retry.attempts"@.len());
    assert("aws.operation"@.len() != "aws.retry.throttled"@.len());
    assert("aws.operation"@.len() != "aws.request.body"@.len());
    assert("aws.operation"@.len() != "aws.response.body"@.len());
    assert("aws.region"@.len() != "aws.request_id"@.len());
    assert("aws.region"@.len() != "aws.error.code"@.len());
    assert("aws.region"@.len() != "aws.error.message"@.len());
    assert("aws.region"@.len() != "aws.retry.attempts"@.len());
    assert("aws.region"@.len() != "aws.retry.throttled"@.len());
    assert("aws.region"@.len() != "aws.request.body"@.len());
    assert("aws.region"@.len() != "aws.response.body"@.len());
    assert("aws.request_id"@[4] != "aws.error.code"@[4]);
    assert("aws.request_id"@.len() != "aws.error.message"@.len());
    assert("aws.request_id"@.len() != "aws.retry.attempts"@.len());
    assert("aws.request_id"@.len() != "aws.retry.throttled"@.len());
    assert("aws.request_id"@.len() != "aws.request.body"@.len());
    assert("aws.request_id"@.len() != "aws.response.body"@.len());
    assert("aws.error.code"@.len() != "aws.error.message"@.len());
    assert("aws.error.code"@.len() != "aws.retry.attempts"@.len());
    assert("aws.error.code"@.len() != "aws.retry.throttled"@.len());
    assert("aws.error.code"@.len() != "aws.request.body"@.len());
    assert("aws.error.code"@.len() != "aws.response.body"@.len());
    assert("aws.error.message"@.len() != "aws.retry.attempts"@.len());
    assert("aws.error.message"@.len() != "aws.retry.throttled"@.len());
    assert("aws.error.message"@.len() != "aws.request.body"@.len());
    assert("aws.error.message"@[4] != "aws.response.body"@[4]);
    assert("aws.retry.attempts"@.len() != "aws.retry.throttled"@.len());
    assert("aws.retry.attempts"@.len() != "aws.request.body"@.len());
    assert("aws.retry.attempts"@.len() != "aws.response.body"@.len());
    assert("aws.retry.throttled"@.len() != "aws.request.body"@.len());
    assert("aws.retry.throttled"@.len() != "aws.response.body"@.len());
    assert("aws.request.body"@.len() != "aws.response.body"@.len());
}

/// Which keys each part of the common attributes holds.
proof fn lemma_part_keys(config: AwsOtelConfig, attempt: AttemptDetails)
    ensures
        forall|k: Seq<char>|
            #[trigger] has_key(
                identity_attributes(attempt),
                k,
            ) <==> (k == "aws.service"@ || k == "aws.operation"@),
        forall|k: Seq<char>|
            #[trigger] has_key(opt_text_attr("aws.region"@, attempt.region), k) <==> (k
                == "aws.region"@ && attempt.region is Some),
        forall|k: Seq<char>|
            #[trigger] has_key(opt_text_attr("aws.request_id"@, attempt.request_id), k) <==> (k
                == "aws.request_id"@ && attempt.request_id is Some),
        forall|k: Seq<char>|
            #[trigger] has_key(error_detail_attributes(config, attempt), k) <==> (
            config.capture_error_details && ((k == "aws.error.code"@ && attempt.error_code is Some)
                || (k == "aws.error.message"@ && attempt.error_message is Some))),
        forall|k: Seq<char>|
            #[trigger] has_key(retry_attributes(config, attempt), k) <==> (config.capture_retry_info
                && ((k == "aws.retry.attempts"@ && attempt.attempts is Some) || (k
                == "aws.retry.throttled"@ && attempt.error_code is Some))),
        forall|k: Seq<char>|
            #[trigger] has_key(body_attributes(config, attempt), k) <==> ((config.capture_request_body
                && k == "aws.request.body"@ && attempt.request_body is Some) || (
            config.capture_response_body && k == "aws.response.body"@ && attempt.response_body is Some)),
{
    assert forall|k: Seq<char>| #[trigger] has_key(
        identity_attributes(attempt),
        k,
    ) <==> (k == "aws.service"@ || k == "aws.operation"@) by {
        let h = identity_attributes(attempt);
        if k == "aws.service"@ {
            assert(h[0].key == k);
        }
        if k == "aws.operation"@ {
            assert(h[1].key == k);
        }
    }
    assert forall|k: Seq<char>| #[trigger] has_key(opt_text_attr("aws.region"@, attempt.region), k)
        <==> (k == "aws.region"@ && attempt.region is Some) by {
        if k == "aws.region"@ && attempt.region is Some {
            assert(opt_text_attr("aws.region"@, attempt.region)[0].key == k);
        }
    }
    assert forall|k: Seq<char>| #[trigger] has_key(opt_text_attr("aws.request_id"@, attempt.request_id), k)
        <==> (k == "aws.request_id"@ && attempt.request_id is Some) by {
        if k == "aws.request_id"@ && attempt.request_id is Some {
            assert(opt_text_attr("aws.request_id"@, attempt.request_id)[0].key == k);
        }
    }
    assert forall|k: Seq<char>| #[trigger] has_key(error_detail_attributes(config, attempt), k) <==> (
    config.capture_error_details && ((k == "aws.error.code"@ && attempt.error_code is Some) || (k
        == "aws.error.message"@ && attempt.error_message is Some))) by {
        let c = opt_text_attr("aws.error.code"@, attempt.error_code);
        let m = opt_text_attr("aws.error.message"@, attempt.error_message);
        lemma_has_key_concat(c, m, k);
        if attempt.error_code is Some && k == "aws.error.code"@ {
            assert(c[0].key == k);
        }
        if attempt.error_message is Some && k == "aws.error.message"@ {
            assert(m[0].key == k);
        }
    }
    assert forall|k: Seq<char>| #[trigger] has_key(retry_attributes(config, attempt), k) <==> (
    config.capture_retry_info && ((k == "aws.retry.attempts"@ && attempt.attempts is Some) || (k
        == "aws.retry.throttled"@ && attempt.error_code is Some))) by {
        let n = opt_count_attr("aws.retry.attempts"@, attempt.attempts);
        let t = throttled_attr(attempt.error_code);
        lemma_has_key_concat(n, t, k);
        if attempt.attempts is Some && k == "aws.retry.attempts"@ {
            assert(n[0].key == k);
        }
        if attempt.error_code is Some && k == "aws.retry.throttled"@ {
            assert(t[0].key == k);
        }
    }
    assert forall|k: Seq<char>| #[trigger] has_key(body_attributes(config, attempt), k) <==> ((
    config.capture_request_body && k == "aws.request.body"@ && attempt.request_body is Some) || (
    config.capture_response_body && k == "aws.response.body"@ && attempt.response_body is Some)) by {
        let q = if config.capture_request_body {
            opt_text_attr("aws.request.body"@, attempt.request_body)
        } else {
            Seq::empty()
        };
        let p = if config.capture_response_body {
            opt_text_attr("aws.response.body"@, attempt.response_body)
        } else {
            Seq::empty()
        };
        lemma_has_key_concat(q, p, k);
        if config.capture_request_body && attempt.request_body is Some && k == "aws.request.body"@ {
            assert(q[0].key == k);
        }
        if config.capture_response_body && attempt.response_body is Some && k
            == "aws.response.body"@ {
            assert(p[0].key == k);
        }
    }
}

} // verus!
