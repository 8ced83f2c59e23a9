//! AWS service-specific attribute builders.
//!
//! Each builder looks at the name of an operation and at the operation's
//! input, and lists the span attributes that describe the call.  The inputs
//! are held here as the plain values the builders read from the AWS SDK's
//! input types; a variant per input type that a builder recognises, and
//! `Other` for any other input.
use vstd::prelude::*;

use crate::text::{after_last, last_segment, same_text, truncate_text, truncated};

verus! {

// ---------------------------------------------------------------------------
// Attributes
// ---------------------------------------------------------------------------

/// The value of a span attribute.
#[derive(Debug, Clone)]
pub enum AttributeValue {
    /// A string value.
    String(String),
    /// A 64-bit integer value.
    I64(i64),
    /// A boolean value.
    Bool(bool),
}

/// A span attribute: a key and its value.
#[derive(Debug, Clone)]
pub struct Attribute {
    /// The attribute's key, such as `aws.s3.bucket`.
    pub key: String,
    /// The attribute's value.
    pub value: AttributeValue,
}

/// The mathematical value of an [`AttributeValue`].
pub enum AttributeValueView {
    String(Seq<char>),
    I64(i64),
    Bool(bool),
}

/// The mathematical value of an [`Attribute`].
pub struct AttributeView {
    pub key: Seq<char>,
    pub value: AttributeValueView,
}

impl View for AttributeValue {
    type V = AttributeValueView;

    open spec fn view(&self) -> AttributeValueView {
        match self {
            AttributeValue::String(s) => AttributeValueView::String(s@),
            AttributeValue::I64(i) => AttributeValueView::I64(*i),
            AttributeValue::Bool(b) => AttributeValueView::Bool(*b),
        }
    }
}

impl View for Attribute {
    type V = AttributeView;

    open spec fn view(&self) -> AttributeView {
        AttributeView { key: self.key@, value: self.value@ }
    }
}

impl DeepView for Attribute {
    type V = AttributeView;

    open spec fn deep_view(&self) -> AttributeView {
        self@
    }
}

/// An attribute with a string value.
pub open spec fn text_attr(key: Seq<char>, value: Seq<char>) -> AttributeView {
    AttributeView { key, value: AttributeValueView::String(value) }
}

/// An attribute with an integer value.
pub open spec fn int_attr(key: Seq<char>, value: i64) -> AttributeView {
    AttributeView { key, value: AttributeValueView::I64(value) }
}

/// An attribute with a boolean value.
pub open spec fn bool_attr(key: Seq<char>, value: bool) -> AttributeView {
    AttributeView { key, value: AttributeValueView::Bool(value) }
}

/// The text of an optional string, or the empty text where it is absent.
pub open spec fn text_or_empty(value: Option<String>) -> Seq<char> {
    match value {
        Some(s) => s@,
        None => Seq::empty(),
    }
}

/// A string attribute where the value is present, else nothing.
pub open spec fn opt_text_attr(key: Seq<char>, value: Option<String>) -> Seq<AttributeView> {
    match value {
        Some(s) => seq![text_attr(key, s@)],
        None => Seq::empty(),
    }
}

/// A boolean attribute where the value is present, else nothing.
pub open spec fn opt_bool_attr(key: Seq<char>, value: Option<bool>) -> Seq<AttributeView> {
    match value {
        Some(b) => seq![bool_attr(key, b)],
        None => Seq::empty(),
    }
}

/// An integer attribute where the value is present, else nothing.
pub open spec fn opt_int_attr(key: Seq<char>, value: Option<i32>) -> Seq<AttributeView> {
    match value {
        Some(v) => seq![int_attr(key, v as i64)],
        None => Seq::empty(),
    }
}

/// A string attribute whose value is the last `sep`-separated piece of a
/// present value, else nothing.
pub open spec fn opt_last_segment_attr(key: Seq<char>, value: Option<String>, sep: char) -> Seq<
    AttributeView,
> {
    match value {
        Some(s) => seq![text_attr(key, after_last(s@, sep))],
        None => Seq::empty(),
    }
}

pub(crate) fn push_text(attrs: &mut Vec<Attribute>, key: &str, value: String)
    ensures
        final(attrs).deep_view() == old(attrs).deep_view().push(text_attr(key@, value@)),
{
    let ghost text = value@;
    attrs.push(Attribute { key: String::from_str(key), value: AttributeValue::String(value) });
    assert(attrs.deep_view() =~= old(attrs).deep_view().push(text_attr(key@, text)));
}

pub(crate) fn push_int(attrs: &mut Vec<Attribute>, key: &str, value: i64)
    ensures
        final(attrs).deep_view() == old(attrs).deep_view().push(int_attr(key@, value)),
{
    attrs.push(Attribute { key: String::from_str(key), value: AttributeValue::I64(value) });
    assert(attrs.deep_view() =~= old(attrs).deep_view().push(int_attr(key@, value)));
}

pub(crate) fn push_bool(attrs: &mut Vec<Attribute>, key: &str, value: bool)
    ensures
        final(attrs).deep_view() == old(attrs).deep_view().push(bool_attr(key@, value)),
{
    attrs.push(Attribute { key: String::from_str(key), value: AttributeValue::Bool(value) });
    assert(attrs.deep_view() =~= old(attrs).deep_view().push(bool_attr(key@, value)));
}

pub(crate) fn owned_or_empty(value: &Option<String>) -> (r: String)
    ensures
        r@ == text_or_empty(*value),
{
    match value {
        Some(s) => s.clone(),
        None => String::new(),
    }
}

pub(crate) fn push_opt_text(attrs: &mut Vec<Attribute>, key: &str, value: &Option<String>)
    ensures
        final(attrs).deep_view() == old(attrs).deep_view() + opt_text_attr(key@, *value),
{
    match value {
        Some(s) => push_text(attrs, key, s.clone()),
        None => {},
    }
    assert(attrs.deep_view() =~= old(attrs).deep_view() + opt_text_attr(key@, *value));
}

pub(crate) fn push_opt_bool(attrs: &mut Vec<Attribute>, key: &str, value: Option<bool>)
    ensures
        final(attrs).deep_view() == old(attrs).deep_view() + opt_bool_attr(key@, value),
{
    match value {
        Some(b) => push_bool(attrs, key, b),
        None => {},
    }
    assert(attrs.deep_view() =~= old(attrs).deep_view() + opt_bool_attr(key@, value));
}

pub(crate) fn push_opt_int(attrs: &mut Vec<Attribute>, key: &str, value: Option<i32>)
    ensures
        final(attrs).deep_view() == old(attrs).deep_view() + opt_int_attr(key@, value),
{
    match value {
        Some(v) => push_int(attrs, key, v as i64),
        None => {},
    }
    assert(attrs.deep_view() =~= old(attrs).deep_view() + opt_int_attr(key@, value));
}

fn push_opt_last_segment(attrs: &mut Vec<Attribute>, key: &str, value: &Option<String>, sep: char)
    ensures
        final(attrs).deep_view() == old(attrs).deep_view() + opt_last_segment_attr(
            key@,
            *value,
            sep,
        ),
{
    match value {
        Some(s) => push_text(attrs, key, last_segment(s.as_str(), sep)),
        None => {},
    }
    assert(attrs.deep_view() =~= old(attrs).deep_view() + opt_last_segment_attr(key@, *value, sep));
}

/// An integer attribute for a present count, else nothing.
pub open spec fn opt_count_attr(key: Seq<char>, value: Option<u32>) -> Seq<AttributeView> {
    match value {
        Some(v) => seq![int_attr(key, v as i64)],
        None => Seq::empty(),
    }
}

pub(crate) fn push_opt_count(attrs: &mut Vec<Attribute>, key: &str, value: Option<u32>)
    ensures
        final(attrs).deep_view() == old(attrs).deep_view() + opt_count_attr(key@, value),
{
    match value {
        Some(v) => push_int(attrs, key, v as i64),
        None => {},
    }
    assert(attrs.deep_view() =~= old(attrs).deep_view() + opt_count_attr(key@, value));
}

/// An integer attribute for a present number of items, else nothing.
pub open spec fn opt_len_attr(key: Seq<char>, value: Option<usize>) -> Seq<AttributeView> {
    match value {
        Some(v) => seq![int_attr(key, v as i64)],
        None => Seq::empty(),
    }
}

fn push_opt_len(attrs: &mut Vec<Attribute>, key: &str, value: Option<usize>)
    ensures
        final(attrs).deep_view() == old(attrs).deep_view() + opt_len_attr(key@, value),
{
    match value {
        Some(v) => push_int(attrs, key, v as i64),
        None => {},
    }
    assert(attrs.deep_view() =~= old(attrs).deep_view() + opt_len_attr(key@, value));
}

// ---------------------------------------------------------------------------
// Limiting the length of values
// ---------------------------------------------------------------------------

/// An attribute whose string value is cut to `max` characters (no limit
/// where `max` is 0); other values stay as they are.
pub open spec fn limited_attr(a: AttributeView, max: usize) -> AttributeView {
    AttributeView {
        key: a.key,
        value: match a.value {
            AttributeValueView::String(s) => AttributeValueView::String(truncated(s, max)),
            other => other,
        },
    }
}

/// Each attribute of the list limited to `max` characters.
pub open spec fn limited_attrs(attrs: Seq<AttributeView>, max: usize) -> Seq<AttributeView> {
    attrs.map_values(|a: AttributeView| limited_attr(a, max))
}

/// Cut every string value of the attributes to `max` characters (no limit
/// where `max` is 0), keeping keys, order and other values.
pub fn limit_attribute_values(attrs: Vec<Attribute>, max: usize) -> (r: Vec<Attribute>)
    ensures
        r.deep_view() == limited_attrs(attrs.deep_view(), max),
{
    let mut out: Vec<Attribute> = Vec::new();
    let n = attrs.len();
    let mut i: usize = 0;
    while i < n
        invariant
            n == attrs@.len(),
            i <= n,
            out.deep_view() == limited_attrs(attrs.deep_view(), max).take(i as int),
        decreases n - i,
    {
        let a = &attrs[i];
        let value = match &a.value {
            AttributeValue::String(s) => AttributeValue::String(truncate_text(s, max)),
            AttributeValue::I64(v) => AttributeValue::I64(*v),
            AttributeValue::Bool(b) => AttributeValue::Bool(*b),
        };
        let ghost before = out.deep_view();
        out.push(Attribute { key: a.key.clone(), value });
        assert(out.deep_view() =~= before.push(limited_attr(attrs.deep_view()[i as int], max)));
        assert(limited_attrs(attrs.deep_view(), max).take(i + 1) =~= limited_attrs(
            attrs.deep_view(),
            max,
        ).take(i as int).push(limited_attr(attrs.deep_view()[i as int], max)));
        i = i + 1;
    }
    assert(limited_attrs(attrs.deep_view(), max).take(n as int) =~= limited_attrs(
        attrs.deep_view(),
        max,
    ));
    out
}

/// With a limit, every string value of a limited list fits in it; keys,
/// order and the number of attributes stay, and a value that fits already is
/// kept whole.
pub proof fn lemma_limited_values_fit(attrs: Seq<AttributeView>, max: usize)
    ensures
        limited_attrs(attrs, max).len() == attrs.len(),
        forall|i: int|
            0 <= i < attrs.len() ==> #[trigger] limited_attrs(attrs, max)[i].key == attrs[i].key,
        forall|i: int|
            0 <= i < attrs.len() && max != 0 ==> match #[trigger] limited_attrs(attrs, max)[i].value {
                AttributeValueView::String(s) => s.len() <= max,
                _ => true,
            },
        forall|i: int|
            0 <= i < attrs.len() ==> match attrs[i].value {
                AttributeValueView::String(s) => (max == 0 || s.len() <= max)
                    ==> #[trigger] limited_attrs(attrs, max)[i] == attrs[i],
                _ => limited_attrs(attrs, max)[i] == attrs[i],
            },
        forall|i: int|
            0 <= i < attrs.len() ==> match attrs[i].value {
                AttributeValueView::String(s) => match #[trigger] limited_attrs(attrs, max)[i].value {
                    AttributeValueView::String(t) => t == s.take(t.len() as int) && t.len() == if max
                        == 0 || s.len() <= max {
                        s.len()
                    } else {
                        max as nat
                    },
                    _ => false,
                },
                _ => true,
            },
        forall|x: AttributeView|
            #[trigger] attrs.contains(x) ==> limited_attrs(attrs, max).contains(limited_attr(x, max)),
{
    assert forall|x: AttributeView| #[trigger] attrs.contains(x) implies limited_attrs(
        attrs,
        max,
    ).contains(limited_attr(x, max)) by {
        let i = choose|i: int| 0 <= i < attrs.len() && attrs[i] == x;
        assert(limited_attrs(attrs, max)[i] == limited_attr(x, max));
    }
}

// ---------------------------------------------------------------------------
// Semantic convention keys
// ---------------------------------------------------------------------------

/// The key `opentelemetry_semantic_conventions::attribute::DB_SYSTEM`, which
/// that crate defines as "db.system".
#[verifier::external_body]
fn db_system_key() -> (k: &'static str)
    ensures
        k@ == "db.system"@,
{
    opentelemetry_semantic_conventions::attribute::DB_SYSTEM
}

/// The key `opentelemetry_semantic_conventions::attribute::MESSAGING_SYSTEM`,
/// which that crate defines as "messaging.system".
#[verifier::external_body]
fn messaging_system_key() -> (k: &'static str)
    ensures
        k@ == "messaging.system"@,
{
    opentelemetry_semantic_conventions::attribute::MESSAGING_SYSTEM
}

/// The key `opentelemetry_semantic_conventions::attribute::MESSAGING_OPERATION_TYPE`,
/// which that crate defines as "messaging.operation.type".
#[verifier::external_body]
fn messaging_operation_type_key() -> (k: &'static str)
    ensures
        k@ == "messaging.operation.type"@,
{
    opentelemetry_semantic_conventions::attribute::MESSAGING_OPERATION_TYPE
}

/// The key `opentelemetry_semantic_conventions::attribute::MESSAGING_DESTINATION_NAME`,
/// which that crate defines as "messaging.destination.name".
#[verifier::external_body]
fn messaging_destination_name_key() -> (k: &'static str)
    ensures
        k@ == "messaging.destination.name"@,
{
    opentelemetry_semantic_conventions::attribute::MESSAGING_DESTINATION_NAME
}

/// The key `opentelemetry_semantic_conventions::attribute::MESSAGING_BATCH_MESSAGE_COUNT`,
/// which that crate defines as "messaging.batch.message_count".
#[verifier::external_body]
fn messaging_batch_message_count_key() -> (k: &'static str)
    ensures
        k@ == "messaging.batch.message_count"@,
{
    opentelemetry_semantic_conventions::attribute::MESSAGING_BATCH_MESSAGE_COUNT
}

// ---------------------------------------------------------------------------
// S3
// ---------------------------------------------------------------------------

/// What the S3 attribute builder reads of an S3 operation's input.
#[derive(Debug, Clone)]
pub enum S3Input {
    /// The input of an operation on one object: a `GetObjectInput`,
    /// `PutObjectInput`, `DeleteObjectInput` or `HeadObjectInput`.
    Object { bucket: Option<String>, key: Option<String> },
    /// The input of a listing: a `ListObjectsInput` or `ListObjectsV2Input`.
    ListObjects { bucket: Option<String>, prefix: Option<String>, max_keys: Option<i32> },
    /// A `CopyObjectInput`.
    CopyObject { bucket: Option<String>, key: Option<String>, copy_source: Option<String> },
    /// The input of a step of a multipart upload: a
    /// `CreateMultipartUploadInput`, `UploadPartInput`, `UploadPartCopyInput`,
    /// `CompleteMultipartUploadInput` or `AbortMultipartUploadInput`, each
    /// field absent where that input has none.
    MultipartUpload {
        bucket: Option<String>,
        key: Option<String>,
        copy_source: Option<String>,
        upload_id: Option<String>,
        part_number: Option<i32>,
    },
    /// Any other input.
    Other,
}

/// The S3 operations on one object.
pub open spec fn is_s3_object_operation(operation: Seq<char>) -> bool {
    operation == "GetObject"@ || operation == "PutObject"@ || operation == "DeleteObject"@
        || operation == "HeadObject"@
}

/// The S3 listing operations.
pub open spec fn is_s3_list_operation(operation: Seq<char>) -> bool {
    operation == "ListObjects"@ || operation == "ListObjectsV2"@
}

/// The steps of an S3 multipart upload.
pub open spec fn is_s3_multipart_operation(operation: Seq<char>) -> bool {
    operation == "CreateMultipartUpload"@ || operation == "UploadPart"@ || operation
        == "UploadPartCopy"@ || operation == "CompleteMultipartUpload"@ || operation
        == "AbortMultipartUpload"@
}

/// The attributes that the S3 builder gives for `operation` on `input`.
pub open spec fn s3_attributes(operation: Seq<char>, input: S3Input) -> Seq<AttributeView> {
    if is_s3_object_operation(operation) {
        match input {
            S3Input::Object { bucket, key } => seq![
                text_attr("aws.s3.bucket"@, text_or_empty(bucket)),
                text_attr("aws.s3.key"@, text_or_empty(key)),
            ],
            _ => Seq::empty(),
        }
    } else if is_s3_list_operation(operation) {
        match input {
            S3Input::ListObjects { bucket, prefix, max_keys } => seq![
                text_attr("aws.s3.bucket"@, text_or_empty(bucket)),
            ] + opt_text_attr("aws.s3.prefix"@, prefix) + opt_int_attr("aws.s3.max_keys"@, max_keys),
            _ => Seq::empty(),
        }
    } else if operation == "CopyObject"@ {
        match input {
            S3Input::CopyObject { bucket, key, copy_source } => seq![
                text_attr("aws.s3.bucket"@, text_or_empty(bucket)),
                text_attr("aws.s3.key"@, text_or_empty(key)),
                text_attr("aws.s3.copy_source"@, text_or_empty(copy_source)),
            ],
            _ => Seq::empty(),
        }
    } else if is_s3_multipart_operation(operation) {
        match input {
            S3Input::MultipartUpload { bucket, key, copy_source, upload_id, part_number } => seq![
                text_attr("aws.s3.bucket"@, text_or_empty(bucket)),
                text_attr("aws.s3.key"@, text_or_empty(key)),
            ] + opt_text_attr("aws.s3.copy_source"@, copy_source) + opt_text_attr(
                "aws.s3.upload_id"@,
                upload_id,
            ) + opt_int_attr("aws.s3.part_number"@, part_number),
            _ => Seq::empty(),
        }
    } else {
        Seq::empty()
    }
}

/// S3-specific attribute builder.
#[derive(Debug, Clone, Copy)]
pub struct S3AttributeBuilder;

impl S3AttributeBuilder {
    /// Build attributes for the given operation input.
    pub fn build_attributes(&self, _service: &str, operation: &str, input: &S3Input) -> (r: Vec<
        Attribute,
    >)
        ensures
            r.deep_view() == s3_attributes(operation@, *input),
    {
        let mut attributes: Vec<Attribute> = Vec::new();
        if same_text(operation, "GetObject") || same_text(operation, "PutObject") || same_text(
            operation,
            "DeleteObject",
        ) || same_text(operation, "HeadObject") {
            match input {
                S3Input::Object { bucket, key } => {
                    push_text(&mut attributes, "aws.s3.bucket", owned_or_empty(bucket));
                    push_text(&mut attributes, "aws.s3.key", owned_or_empty(key));
                },
                _ => {},
            }
        } else if same_text(operation, "ListObjects") || same_text(operation, "ListObjectsV2") {
            match input {
                S3Input::ListObjects { bucket, prefix, max_keys } => {
                    push_text(&mut attributes, "aws.s3.bucket", owned_or_empty(bucket));
                    push_opt_text(&mut attributes, "aws.s3.prefix", prefix);
                    push_opt_int(&mut attributes, "aws.s3.max_keys", *max_keys);
                },
                _ => {},
            }
        } else if same_text(operation, "CopyObject") {
            match input {
                S3Input::CopyObject { bucket, key, copy_source } => {
                    push_text(&mut attributes, "aws.s3.bucket", owned_or_empty(bucket));
                    push_text(&mut attributes, "aws.s3.key", owned_or_empty(key));
                    push_text(&mut attributes, "aws.s3.copy_source", owned_or_empty(copy_source));
                },
                _ => {},
            }
        } else if same_text(operation, "CreateMultipartUpload") || same_text(operation, "UploadPart")
            || same_text(operation, "UploadPartCopy") || same_text(
            operation,
            "CompleteMultipartUpload",
        ) || same_text(operation, "AbortMultipartUpload") {
            match input {
                S3Input::MultipartUpload { bucket, key, copy_source, upload_id, part_number } => {
                    push_text(&mut attributes, "aws.s3.bucket", owned_or_empty(bucket));
                    push_text(&mut attributes, "aws.s3.key", owned_or_empty(key));
                    push_opt_text(&mut attributes, "aws.s3.copy_source", copy_source);
                    push_opt_text(&mut attributes, "aws.s3.upload_id", upload_id);
                    push_opt_int(&mut attributes, "aws.s3.part_number", *part_number);
                },
                _ => {},
            }
        }
        assert(attributes.deep_view() =~= s3_attributes(operation@, *input));
        attributes
    }
}

// ---------------------------------------------------------------------------
// DynamoDB
// ---------------------------------------------------------------------------

/// What the DynamoDB attribute builder reads of a DynamoDB operation's input.
#[derive(Debug, Clone)]
pub enum DynamoDbInput {
    /// A `GetItemInput`.
    GetItem {
        table_name: Option<String>,
        consistent_read: Option<bool>,
        projection_expression: Option<String>,
    },
    /// A `PutItemInput`.
    PutItem { table_name: Option<String> },
    /// A `QueryInput`.
    Query {
        table_name: Option<String>,
        index_name: Option<String>,
        consistent_read: Option<bool>,
        projection_expression: Option<String>,
        limit: Option<i32>,
        scan_index_forward: Option<bool>,
    },
    /// A `ScanInput`.
    Scan {
        table_name: Option<String>,
        index_name: Option<String>,
        consistent_read: Option<bool>,
        projection_expression: Option<String>,
        limit: Option<i32>,
    },
    /// Any other input.
    Other,
}

/// The attributes that the DynamoDB builder gives for `operation` on `input`:
/// always the database system first, then what the operation's input holds.
pub open spec fn dynamodb_attributes(operation: Seq<char>, input: DynamoDbInput) -> Seq<
    AttributeView,
> {
    seq![text_attr("db.system"@, "aws_dynamodb"@)] + if operation == "GetItem"@ {
        match input {
            DynamoDbInput::GetItem { table_name, consistent_read, projection_expression } => seq![
                text_attr("aws.dynamodb.table_names"@, text_or_empty(table_name)),
            ] + opt_bool_attr("aws.dynamodb.consistent_read"@, consistent_read) + opt_text_attr(
                "aws.dynamodb.projection"@,
                projection_expression,
            ),
            _ => Seq::empty(),
        }
    } else if operation == "PutItem"@ {
        match input {
            DynamoDbInput::PutItem { table_name } => seq![
                text_attr("aws.dynamodb.table_names"@, text_or_empty(table_name)),
            ],
            _ => Seq::empty(),
        }
    } else if operation == "Query"@ {
        match input {
            DynamoDbInput::Query {
                table_name,
                index_name,
                consistent_read,
                projection_expression,
                limit,
                scan_index_forward,
            } => seq![text_attr("aws.dynamodb.table_names"@, text_or_empty(table_name))]
                + opt_text_attr("aws.dynamodb.index_name"@, index_name) + opt_bool_attr(
                "aws.dynamodb.consistent_read"@,
                consistent_read,
            ) + opt_text_attr("aws.dynamodb.projection"@, projection_expression) + opt_int_attr("aws.dynamodb.limit"@, limit) + opt_bool_attr(
                "aws.dynamodb.scan_forward"@,
                scan_index_forward,
            ),
            _ => Seq::empty(),
        }
    } else if operation == "Scan"@ {
        match input {
            DynamoDbInput::Scan {
                table_name,
                index_name,
                consistent_read,
                projection_expression,
                limit,
            } => seq![text_attr("aws.dynamodb.table_names"@, text_or_empty(table_name))]
                + opt_text_attr("aws.dynamodb.index_name"@, index_name) + opt_bool_attr(
                "aws.dynamodb.consistent_read"@,
                consistent_read,
            ) + opt_text_attr("aws.dynamodb.projection"@, projection_expression) + opt_int_attr("aws.dynamodb.limit"@, limit),
            _ => Seq::empty(),
        }
    } else {
        Seq::empty()
    }
}

/// DynamoDB-specific attribute builder.
#[derive(Debug, Clone, Copy)]
pub struct DynamoDbAttributeBuilder;

impl DynamoDbAttributeBuilder {
    /// Build attributes for the given operation input.
    #[verifier::rlimit(40)]
    pub fn build_attributes(&self, _service: &str, operation: &str, input: &DynamoDbInput) -> (r:
        Vec<Attribute>)
        ensures
            r.deep_view() == dynamodb_attributes(operation@, *input),
    {
        let mut attributes: Vec<Attribute> = Vec::new();
        push_text(&mut attributes, db_system_key(), String::from_str("aws_dynamodb"));
        if same_text(operation, "GetItem") {
            match input {
                DynamoDbInput::GetItem { table_name, consistent_read, projection_expression } => {
                    push_text(&mut attributes, "aws.dynamodb.table_names", owned_or_empty(table_name));
                    push_opt_bool(&mut attributes, "aws.dynamodb.consistent_read", *consistent_read);
                    push_opt_text(&mut attributes, "aws.dynamodb.projection", projection_expression);
                },
                _ => {},
            }
        } else if same_text(operation, "PutItem") {
            match input {
                DynamoDbInput::PutItem { table_name } => {
                    push_text(&mut attributes, "aws.dynamodb.table_names", owned_or_empty(table_name));
                },
                _ => {},
            }
        } else if same_text(operation, "Query") {
            match input {
                DynamoDbInput::Query {
                    table_name,
                    index_name,
                    consistent_read,
                    projection_expression,
                    limit,
                    scan_index_forward,
                } => {
                    push_text(&mut attributes, "aws.dynamodb.table_names", owned_or_empty(table_name));
                    push_opt_text(&mut attributes, "aws.dynamodb.index_name", index_name);
                    push_opt_bool(&mut attributes, "aws.dynamodb.consistent_read", *consistent_read);
                    push_opt_text(&mut attributes, "aws.dynamodb.projection", projection_expression);
                    push_opt_int(&mut attributes, "aws.dynamodb.limit", *limit);
                    push_opt_bool(&mut attributes, "aws.dynamodb.scan_forward", *scan_index_forward);
                },
                _ => {},
            }
        } else if same_text(operation, "Scan") {
            match input {
                DynamoDbInput::Scan {
                    table_name,
                    index_name,
                    consistent_read,
                    projection_expression,
                    limit,
                } => {
                    push_text(&mut attributes, "aws.dynamodb.table_names", owned_or_empty(table_name));
                    push_opt_text(&mut attributes, "aws.dynamodb.index_name", index_name);
                    push_opt_bool(&mut attributes, "aws.dynamodb.consistent_read", *consistent_read);
                    push_opt_text(&mut attributes, "aws.dynamodb.projection", projection_expression);
                    push_opt_int(&mut attributes, "aws.dynamodb.limit", *limit);
                },
                _ => {},
            }
        }
        assert(attributes.deep_view() =~= dynamodb_attributes(operation@, *input));
        attributes
    }
}

// ---------------------------------------------------------------------------
// SQS
// ---------------------------------------------------------------------------

/// What the SQS attribute builder reads of an SQS operation's input.
#[derive(Debug, Clone)]
pub enum SqsInput {
    /// A `SendMessageInput`.
    SendMessage { queue_url: Option<String> },
    /// A `SendMessageBatchInput`, with the number of its entries.
    SendMessageBatch { queue_url: Option<String>, entry_count: usize },
    /// A `ReceiveMessageInput`.
    ReceiveMessage { queue_url: Option<String>, max_number_of_messages: Option<i32> },
    /// A `DeleteMessageInput`.
    DeleteMessage { queue_url: Option<String> },
    /// A `DeleteMessageBatchInput`, with the number of its entries.
    DeleteMessageBatch { queue_url: Option<String>, entry_count: usize },
    /// Any other input.
    Other,
}

/// The name of a queue: the last `/`-separated piece of its URL, where the
/// URL is present.
pub open spec fn sqs_queue_name_attr(queue_url: Option<String>) -> Seq<AttributeView> {
    opt_last_segment_attr("messaging.destination.name"@, queue_url, '/')
}

/// The server address of a queue: its URL, or the empty text.
pub open spec fn sqs_server_address_attr(queue_url: Option<String>) -> AttributeView {
    text_attr("server.address"@, text_or_empty(queue_url))
}

/// The attributes that the SQS builder gives for `operation` on `input`:
/// always the messaging system first, then what the operation's input holds.
pub open spec fn sqs_attributes(operation: Seq<char>, input: SqsInput) -> Seq<AttributeView> {
    seq![text_attr("messaging.system"@, "aws_sqs"@)] + if operation == "SendMessage"@ {
        match input {
            SqsInput::SendMessage { queue_url } => seq![
                text_attr("messaging.operation.type"@, "send"@),
                sqs_server_address_attr(queue_url),
            ] + sqs_queue_name_attr(queue_url),
            _ => Seq::empty(),
        }
    } else if operation == "SendMessageBatch"@ {
        match input {
            SqsInput::SendMessageBatch { queue_url, entry_count } => seq![
                text_attr("messaging.operation.type"@, "send"@),
                sqs_server_address_attr(queue_url),
                int_attr("messaging.batch.message_count"@, entry_count as i64),
            ] + sqs_queue_name_attr(queue_url),
            _ => Seq::empty(),
        }
    } else if operation == "ReceiveMessage"@ {
        match input {
            SqsInput::ReceiveMessage { queue_url, max_number_of_messages } => seq![
                text_attr("messaging.operation.type"@, "receive"@),
                sqs_server_address_attr(queue_url),
            ] + opt_int_attr("aws.sqs.max_messages"@, max_number_of_messages)
                + sqs_queue_name_attr(queue_url),
            _ => Seq::empty(),
        }
    } else if operation == "DeleteMessage"@ {
        match input {
            SqsInput::DeleteMessage { queue_url } => seq![
                text_attr("messaging.operation.type"@, "delete"@),
                sqs_server_address_attr(queue_url),
            ] + sqs_queue_name_attr(queue_url),
            _ => Seq::empty(),
        }
    } else if operation == "DeleteMessageBatch"@ {
        match input {
            SqsInput::DeleteMessageBatch { queue_url, entry_count } => seq![
                text_attr("messaging.operation.type"@, "delete"@),
                sqs_server_address_attr(queue_url),
                int_attr("messaging.batch.message_count"@, entry_count as i64),
            ] + sqs_queue_name_attr(queue_url),
            _ => Seq::empty(),
        }
    } else {
        Seq::empty()
    }
}

/// SQS-specific attribute builder.
#[derive(Debug, Clone, Copy)]
pub struct SqsAttributeBuilder;

impl SqsAttributeBuilder {
    /// Build attributes for the given operation input.
    pub fn build_attributes(&self, _service: &str, operation: &str, input: &SqsInput) -> (r: Vec<
        Attribute,
    >)
        ensures
            r.deep_view() == sqs_attributes(operation@, *input),
    {
        let mut attributes: Vec<Attribute> = Vec::new();
        push_text(&mut attributes, messaging_system_key(), String::from_str("aws_sqs"));
        if same_text(operation, "SendMessage") {
            match input {
                SqsInput::SendMessage { queue_url } => {
                    push_text(&mut attributes, messaging_operation_type_key(), String::from_str("send"));
                    push_text(&mut attributes, "server.address", owned_or_empty(queue_url));
                    push_opt_last_segment(&mut attributes, messaging_destination_name_key(), queue_url, '/');
                },
                _ => {},
            }
        } else if same_text(operation, "SendMessageBatch") {
            match input {
                SqsInput::SendMessageBatch { queue_url, entry_count } => {
                    push_text(&mut attributes, messaging_operation_type_key(), String::from_str("send"));
                    push_text(&mut attributes, "server.address", owned_or_empty(queue_url));
                    push_int(&mut attributes, messaging_batch_message_count_key(), *entry_count as i64);
                    push_opt_last_segment(&mut attributes, messaging_destination_name_key(), queue_url, '/');
                },
                _ => {},
            }
        } else if same_text(operation, "ReceiveMessage") {
            match input {
                SqsInput::ReceiveMessage { queue_url, max_number_of_messages } => {
                    push_text(&mut attributes, messaging_operation_type_key(), String::from_str("receive"));
                    push_text(&mut attributes, "server.address", owned_or_empty(queue_url));
                    push_opt_int(&mut attributes, "aws.sqs.max_messages", *max_number_of_messages);
                    push_opt_last_segment(&mut attributes, messaging_destination_name_key(), queue_url, '/');
                },
                _ => {},
            }
        } else if same_text(operation, "DeleteMessage") {
            match input {
                SqsInput::DeleteMessage { queue_url } => {
                    push_text(&mut attributes, messaging_operation_type_key(), String::from_str("delete"));
                    push_text(&mut attributes, "server.address", owned_or_empty(queue_url));
                    push_opt_last_segment(&mut attributes, messaging_destination_name_key(), queue_url, '/');
                },
                _ => {},
            }
        } else if same_text(operation, "DeleteMessageBatch") {
            match input {
                SqsInput::DeleteMessageBatch { queue_url, entry_count } => {
                    push_text(&mut attributes, messaging_operation_type_key(), String::from_str("delete"));
                    push_text(&mut attributes, "server.address", owned_or_empty(queue_url));
                    push_int(&mut attributes, messaging_batch_message_count_key(), *entry_count as i64);
                    push_opt_last_segment(&mut attributes, messaging_destination_name_key(), queue_url, '/');
                },
                _ => {},
            }
        }
        assert(attributes.deep_view() =~= sqs_attributes(operation@, *input));
        attributes
    }
}

// ---------------------------------------------------------------------------
// SNS
// ---------------------------------------------------------------------------

/// What the SNS attribute builder reads of an SNS operation's input.
#[derive(Debug, Clone)]
pub enum SnsInput {
    /// A `PublishInput`, with the number of its message attributes where it
    /// has them.
    Publish {
        topic_arn: Option<String>,
        target_arn: Option<String>,
        message_attribute_count: Option<usize>,
    },
    /// A `PublishBatchInput`, with the number of its request entries.
    PublishBatch { topic_arn: Option<String>, entry_count: usize },
    /// Any other input.
    Other,
}

/// The attributes that the SNS builder gives for `operation` on `input`:
/// always the messaging system first, then what the operation's input holds.
/// A topic's or target's name is the last `:`-separated piece of its ARN.
pub open spec fn sns_attributes(operation: Seq<char>, input: SnsInput) -> Seq<AttributeView> {
    seq![text_attr("messaging.system"@, "aws_sns"@)] + if operation == "Publish"@ {
        match input {
            SnsInput::Publish { topic_arn, target_arn, message_attribute_count } => seq![
                text_attr("messaging.operation.type"@, "send"@),
                text_attr("messaging.operation.name"@, "publish"@),
            ] + opt_last_segment_attr("messaging.destination.name"@, topic_arn, ':')
                + opt_last_segment_attr("messaging.destination.name"@, target_arn, ':')
                + opt_len_attr("aws.sns.message_attribute_count"@, message_attribute_count),
            _ => Seq::empty(),
        }
    } else if operation == "PublishBatch"@ {
        match input {
            SnsInput::PublishBatch { topic_arn, entry_count } => seq![
                text_attr("messaging.operation.type"@, "send"@),
                text_attr("messaging.operation.name"@, "publish_batch"@),
                int_attr("messaging.batch.message_count"@, entry_count as i64),
            ] + opt_last_segment_attr("messaging.destination.name"@, topic_arn, ':'),
            _ => Seq::empty(),
        }
    } else {
        Seq::empty()
    }
}

/// SNS-specific attribute builder.
#[derive(Debug, Clone, Copy)]
pub struct SnsAttributeBuilder;

impl SnsAttributeBuilder {
    /// Build attributes for the given operation input.
    pub fn build_attributes(&self, _service: &str, operation: &str, input: &SnsInput) -> (r: Vec<
        Attribute,
    >)
        ensures
            r.deep_view() == sns_attributes(operation@, *input),
    {
        let mut attributes: Vec<Attribute> = Vec::new();
        push_text(&mut attributes, messaging_system_key(), String::from_str("aws_sns"));
        if same_text(operation, "Publish") {
            match input {
                SnsInput::Publish { topic_arn, target_arn, message_attribute_count } => {
                    push_text(&mut attributes, messaging_operation_type_key(), String::from_str("send"));
                    push_text(&mut attributes, "messaging.operation.name", String::from_str("publish"));
                    push_opt_last_segment(&mut attributes, "messaging.destination.name", topic_arn, ':');
                    push_opt_last_segment(&mut attributes, "messaging.destination.name", target_arn, ':');
                    push_opt_len(&mut attributes, "aws.sns.message_attribute_count", *message_attribute_count);
                },
                _ => {},
            }
        } else if same_text(operation, "PublishBatch") {
            match input {
                SnsInput::PublishBatch { topic_arn, entry_count } => {
                    push_text(&mut attributes, messaging_operation_type_key(), String::from_str("send"));
                    push_text(&mut attributes, "messaging.operation.name", String::from_str("publish_batch"));
                    push_int(&mut attributes, messaging_batch_message_count_key(), *entry_count as i64);
                    push_opt_last_segment(&mut attributes, "messaging.destination.name", topic_arn, ':');
                },
                _ => {},
            }
        }
        assert(attributes.deep_view() =~= sns_attributes(operation@, *input));
        attributes
    }
}

// ---------------------------------------------------------------------------
// Lambda
// ---------------------------------------------------------------------------

/// What the Lambda attribute builder reads of a Lambda operation's input.
#[derive(Debug, Clone)]
pub enum LambdaInput {
    /// An `InvokeInput`; its invocation type by its name, such as
    /// "RequestResponse".
    Invoke {
        function_name: Option<String>,
        invocation_type: Option<String>,
        qualifier: Option<String>,
    },
    /// Any other input.
    Other,
}

/// The attributes that the Lambda builder gives for `operation` on `input`.
pub open spec fn lambda_attributes(operation: Seq<char>, input: LambdaInput) -> Seq<AttributeView> {
    if operation == "Invoke"@ {
        match input {
            LambdaInput::Invoke { function_name, invocation_type, qualifier } => seq![
                text_attr("aws.lambda.function_name"@, text_or_empty(function_name)),
            ] + opt_text_attr("aws.lambda.invocation_type"@, invocation_type) + opt_text_attr(
                "aws.lambda.qualifier"@,
                qualifier,
            ),
            _ => Seq::empty(),
        }
    } else {
        Seq::empty()
    }
}

/// Lambda-specific attribute builder.
#[derive(Debug, Clone, Copy)]
pub struct LambdaAttributeBuilder;

impl LambdaAttributeBuilder {
    /// Build attributes for the given operation input.
    pub fn build_attributes(&self, _service: &str, operation: &str, input: &LambdaInput) -> (r:
        Vec<Attribute>)
        ensures
            r.deep_view() == lambda_attributes(operation@, *input),
    {
        let mut attributes: Vec<Attribute> = Vec::new();
        if same_text(operation, "Invoke") {
            match input {
                LambdaInput::Invoke { function_name, invocation_type, qualifier } => {
                    push_text(&mut attributes, "aws.lambda.function_name", owned_or_empty(function_name));
                    push_opt_text(&mut attributes, "aws.lambda.invocation_type", invocation_type);
                    push_opt_text(&mut attributes, "aws.lambda.qualifier", qualifier);
                },
                _ => {},
            }
        }
        assert(attributes.deep_view() =~= lambda_attributes(operation@, *input));
        attributes
    }
}

// ---------------------------------------------------------------------------
// Laws
// ---------------------------------------------------------------------------

/// The DynamoDB builder always names the database system first, as
/// "aws_dynamodb"; for an operation it does not know, that is all it gives.
pub proof fn lemma_dynamodb_system_always_first(operation: Seq<char>, input: DynamoDbInput)
    ensures
        dynamodb_attributes(operation, input).len() >= 1,
        dynamodb_attributes(operation, input)[0] == text_attr("db.system"@, "aws_dynamodb"@),
        !(operation == "GetItem"@ || operation == "PutItem"@ || operation == "Query"@ || operation
            == "Scan"@) ==> dynamodb_attributes(operation, input) == seq![
            text_attr("db.system"@, "aws_dynamodb"@),
        ],
{
    if !(operation == "GetItem"@ || operation == "PutItem"@ || operation == "Query"@ || operation
        == "Scan"@) {
        assert(dynamodb_attributes(operation, input) =~= seq![
            text_attr("db.system"@, "aws_dynamodb"@),
        ]);
    }
}

/// The SQS builder always names the messaging system first, as "aws_sqs";
/// for an operation it does not know, that is all it gives.
pub proof fn lemma_sqs_system_always_first(operation: Seq<char>, input: SqsInput)
    ensures
        sqs_attributes(operation, input).len() >= 1,
        sqs_attributes(operation, input)[0] == text_attr("messaging.system"@, "aws_sqs"@),
        !(operation == "SendMessage"@ || operation == "SendMessageBatch"@ || operation
            == "ReceiveMessage"@ || operation == "DeleteMessage"@ || operation
            == "DeleteMessageBatch"@) ==> sqs_attributes(operation, input) == seq![
            text_attr("messaging.system"@, "aws_sqs"@),
        ],
{
    if !(operation == "SendMessage"@ || operation == "SendMessageBatch"@ || operation
        == "ReceiveMessage"@ || operation == "DeleteMessage"@ || operation
        == "DeleteMessageBatch"@) {
        assert(sqs_attributes(operation, input) =~= seq![text_attr("messaging.system"@, "aws_sqs"@)]);
    }
}

/// The SNS builder always names the messaging system first, as "aws_sns";
/// for an operation it does not know, that is all it gives.
pub proof fn lemma_sns_system_always_first(operation: Seq<char>, input: SnsInput)
    ensures
        sns_attributes(operation, input).len() >= 1,
        sns_attributes(operation, input)[0] == text_attr("messaging.system"@, "aws_sns"@),
        !(operation == "Publish"@ || operation == "PublishBatch"@) ==> sns_attributes(
            operation,
            input,
        ) == seq![text_attr("messaging.system"@, "aws_sns"@)],
{
    if !(operation == "Publish"@ || operation == "PublishBatch"@) {
        assert(sns_attributes(operation, input) =~= seq![text_attr("messaging.system"@, "aws_sns"@)]);
    }
}

/// The S3 and Lambda builders give nothing for an input of a kind they do not
/// read, whatever the operation.
pub proof fn lemma_unread_input_gives_nothing(operation: Seq<char>)
    ensures
        s3_attributes(operation, S3Input::Other) == Seq::<AttributeView>::empty(),
        lambda_attributes(operation, LambdaInput::Other) == Seq::<AttributeView>::empty(),
{
}

/// A destination name taken from a queue URL or a topic ARN holds no
/// separator, and is what the URL or ARN ends with.
pub proof fn lemma_destination_name_is_last_piece(value: String, sep: char)
    ensures
        opt_last_segment_attr("messaging.destination.name"@, Some(value), sep) == seq![
            text_attr("messaging.destination.name"@, after_last(value@, sep)),
        ],
        !after_last(value@, sep).contains(sep),
        value@.skip(value@.len() - after_last(value@, sep).len()) == after_last(value@, sep),
{
    crate::text::lemma_after_last_is_suffix(value@, sep);
}

} // verus!
