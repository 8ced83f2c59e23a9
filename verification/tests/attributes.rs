use opentelemetry_aws_sdk::attributes::limit_attribute_values;
use opentelemetry_aws_sdk::text::last_segment;
use opentelemetry_aws_sdk::{
    Attribute, AttributeValue, DynamoDbAttributeBuilder, DynamoDbInput, LambdaAttributeBuilder,
    LambdaInput, S3AttributeBuilder, S3Input, SnsAttributeBuilder, SnsInput, SqsAttributeBuilder,
    SqsInput,
};

#[derive(Debug, PartialEq)]
enum V {
    S(String),
    I(i64),
    B(bool),
}

fn s(v: &str) -> V {
    V::S(v.to_string())
}

fn flat(attrs: &[Attribute]) -> Vec<(String, V)> {
    attrs
        .iter()
        .map(|a| {
            let v = match &a.value {
                AttributeValue::String(x) => V::S(x.clone()),
                AttributeValue::I64(i) => V::I(*i),
                AttributeValue::Bool(b) => V::B(*b),
            };
            (a.key.clone(), v)
        })
        .collect()
}

fn kv(k: &str, v: V) -> (String, V) {
    (k.to_string(), v)
}

fn some(v: &str) -> Option<String> {
    Some(v.to_string())
}

// ----- S3 -----

#[test]
fn s3_get_object_gives_bucket_and_key() {
    let input = S3Input::Object { bucket: some("my-bucket"), key: some("a/b.txt") };
    for op in ["GetObject", "PutObject", "DeleteObject", "HeadObject"] {
        let attrs = S3AttributeBuilder.build_attributes("s3", op, &input);
        assert_eq!(
            flat(&attrs),
            vec![kv("aws.s3.bucket", s("my-bucket")), kv("aws.s3.key", s("a/b.txt"))]
        );
    }
}

#[test]
fn s3_missing_fields_become_empty_text() {
    let input = S3Input::Object { bucket: None, key: None };
    let attrs = S3AttributeBuilder.build_attributes("s3", "GetObject", &input);
    assert_eq!(flat(&attrs), vec![kv("aws.s3.bucket", s("")), kv("aws.s3.key", s(""))]);
}

#[test]
fn s3_list_objects_optional_fields() {
    let full = S3Input::ListObjects { bucket: some("b"), prefix: some("logs/"), max_keys: Some(10) };
    let attrs = S3AttributeBuilder.build_attributes("s3", "ListObjectsV2", &full);
    assert_eq!(
        flat(&attrs),
        vec![kv("aws.s3.bucket", s("b")), kv("aws.s3.prefix", s("logs/")), kv("aws.s3.max_keys", V::I(10))]
    );
    let bare = S3Input::ListObjects { bucket: some("b"), prefix: None, max_keys: None };
    let attrs = S3AttributeBuilder.build_attributes("s3", "ListObjects", &bare);
    assert_eq!(flat(&attrs), vec![kv("aws.s3.bucket", s("b"))]);
}

#[test]
fn s3_copy_object() {
    let input = S3Input::CopyObject { bucket: some("dst"), key: some("k"), copy_source: some("src/k") };
    let attrs = S3AttributeBuilder.build_attributes("s3", "CopyObject", &input);
    assert_eq!(
        flat(&attrs),
        vec![kv("aws.s3.bucket", s("dst")), kv("aws.s3.key", s("k")), kv("aws.s3.copy_source", s("src/k"))]
    );
}

#[test]
fn s3_input_of_another_kind_gives_nothing() {
    let list = S3Input::ListObjects { bucket: some("b"), prefix: None, max_keys: None };
    assert!(S3AttributeBuilder.build_attributes("s3", "GetObject", &list).is_empty());
    let get = S3Input::Object { bucket: some("b"), key: some("k") };
    assert!(S3AttributeBuilder.build_attributes("s3", "CopyObject", &get).is_empty());
    assert!(S3AttributeBuilder.build_attributes("s3", "ListBuckets", &get).is_empty());
    assert!(S3AttributeBuilder.build_attributes("s3", "GetObject", &S3Input::Other).is_empty());
    assert!(S3AttributeBuilder.build_attributes("s3", "getobject", &get).is_empty());
}

#[test]
fn s3_put_delete_head_object_give_bucket_and_key() {
    let input = S3Input::Object { bucket: some("my-bucket"), key: some("a.txt") };
    for op in ["PutObject", "DeleteObject", "HeadObject"] {
        let attrs = S3AttributeBuilder.build_attributes("s3", op, &input);
        assert_eq!(flat(&attrs), vec![kv("aws.s3.bucket", s("my-bucket")), kv("aws.s3.key", s("a.txt"))]);
    }
}

#[test]
fn s3_upload_part_gives_upload_id_and_part_number() {
    let input = S3Input::MultipartUpload {
        bucket: some("b"),
        key: some("k"),
        copy_source: None,
        upload_id: some("u-1"),
        part_number: Some(2),
    };
    let attrs = S3AttributeBuilder.build_attributes("s3", "UploadPart", &input);
    assert_eq!(
        flat(&attrs),
        vec![
            kv("aws.s3.bucket", s("b")),
            kv("aws.s3.key", s("k")),
            kv("aws.s3.upload_id", s("u-1")),
            kv("aws.s3.part_number", V::I(2)),
        ]
    );
}

#[test]
fn s3_multipart_steps() {
    let create = S3Input::MultipartUpload { bucket: some("b"), key: some("k"), copy_source: None, upload_id: None, part_number: None };
    let attrs = S3AttributeBuilder.build_attributes("s3", "CreateMultipartUpload", &create);
    assert_eq!(flat(&attrs), vec![kv("aws.s3.bucket", s("b")), kv("aws.s3.key", s("k"))]);
    let copy = S3Input::MultipartUpload { bucket: some("b"), key: some("k"), copy_source: some("src/o"), upload_id: some("u"), part_number: Some(7) };
    let attrs = S3AttributeBuilder.build_attributes("s3", "UploadPartCopy", &copy);
    assert_eq!(
        flat(&attrs),
        vec![
            kv("aws.s3.bucket", s("b")),
            kv("aws.s3.key", s("k")),
            kv("aws.s3.copy_source", s("src/o")),
            kv("aws.s3.upload_id", s("u")),
            kv("aws.s3.part_number", V::I(7)),
        ]
    );
    let done = S3Input::MultipartUpload { bucket: some("b"), key: some("k"), copy_source: None, upload_id: some("u"), part_number: None };
    for op in ["CompleteMultipartUpload", "AbortMultipartUpload"] {
        let attrs = S3AttributeBuilder.build_attributes("s3", op, &done);
        assert_eq!(
            flat(&attrs),
            vec![kv("aws.s3.bucket", s("b")), kv("aws.s3.key", s("k")), kv("aws.s3.upload_id", s("u"))]
        );
    }
    assert!(S3AttributeBuilder.build_attributes("s3", "GetObject", &done).is_empty());
}

// ----- DynamoDB -----

#[test]
fn dynamodb_query_projection() {
    let input = DynamoDbInput::Query {
        table_name: some("Orders"),
        index_name: None,
        consistent_read: None,
        projection_expression: some("id, total"),
        limit: None,
        scan_index_forward: None,
    };
    let attrs = DynamoDbAttributeBuilder.build_attributes("dynamodb", "Query", &input);
    assert_eq!(
        flat(&attrs),
        vec![
            kv("db.system", s("aws_dynamodb")),
            kv("aws.dynamodb.table_names", s("Orders")),
            kv("aws.dynamodb.projection", s("id, total")),
        ]
    );
}

#[test]
fn dynamodb_get_item_and_scan_projection() {
    let get = DynamoDbInput::GetItem { table_name: some("t"), consistent_read: None, projection_expression: some("a") };
    let attrs = DynamoDbAttributeBuilder.build_attributes("dynamodb", "GetItem", &get);
    assert_eq!(
        flat(&attrs),
        vec![kv("db.system", s("aws_dynamodb")), kv("aws.dynamodb.table_names", s("t")), kv("aws.dynamodb.projection", s("a"))]
    );
    let scan = DynamoDbInput::Scan { table_name: some("t"), index_name: some("i"), consistent_read: Some(true), projection_expression: some("b"), limit: Some(1) };
    let attrs = DynamoDbAttributeBuilder.build_attributes("dynamodb", "Scan", &scan);
    assert_eq!(
        flat(&attrs),
        vec![
            kv("db.system", s("aws_dynamodb")),
            kv("aws.dynamodb.table_names", s("t")),
            kv("aws.dynamodb.index_name", s("i")),
            kv("aws.dynamodb.consistent_read", V::B(true)),
            kv("aws.dynamodb.projection", s("b")),
            kv("aws.dynamodb.limit", V::I(1)),
        ]
    );
}

#[test]
fn dynamodb_always_names_the_system() {
    let attrs = DynamoDbAttributeBuilder.build_attributes("dynamodb", "ListTables", &DynamoDbInput::Other);
    assert_eq!(flat(&attrs), vec![kv("db.system", s("aws_dynamodb"))]);
}

#[test]
fn dynamodb_get_item() {
    let input = DynamoDbInput::GetItem { table_name: some("users"), consistent_read: Some(true), projection_expression: None };
    let attrs = DynamoDbAttributeBuilder.build_attributes("dynamodb", "GetItem", &input);
    assert_eq!(
        flat(&attrs),
        vec![
            kv("db.system", s("aws_dynamodb")),
            kv("aws.dynamodb.table_names", s("users")),
            kv("aws.dynamodb.consistent_read", V::B(true)),
        ]
    );
}

#[test]
fn dynamodb_put_item() {
    let input = DynamoDbInput::PutItem { table_name: None };
    let attrs = DynamoDbAttributeBuilder.build_attributes("dynamodb", "PutItem", &input);
    assert_eq!(
        flat(&attrs),
        vec![kv("db.system", s("aws_dynamodb")), kv("aws.dynamodb.table_names", s(""))]
    );
}

#[test]
fn dynamodb_query_all_fields() {
    let input = DynamoDbInput::Query {
        table_name: some("orders"),
        index_name: some("by_date"),
        consistent_read: Some(false),
        projection_expression: None,
        limit: Some(25),
        scan_index_forward: Some(false),
    };
    let attrs = DynamoDbAttributeBuilder.build_attributes("dynamodb", "Query", &input);
    assert_eq!(
        flat(&attrs),
        vec![
            kv("db.system", s("aws_dynamodb")),
            kv("aws.dynamodb.table_names", s("orders")),
            kv("aws.dynamodb.index_name", s("by_date")),
            kv("aws.dynamodb.consistent_read", V::B(false)),
            kv("aws.dynamodb.limit", V::I(25)),
            kv("aws.dynamodb.scan_forward", V::B(false)),
        ]
    );
}

#[test]
fn dynamodb_scan() {
    let input = DynamoDbInput::Scan { table_name: some("t"), index_name: None, consistent_read: None, projection_expression: None, limit: Some(-3) };
    let attrs = DynamoDbAttributeBuilder.build_attributes("dynamodb", "Scan", &input);
    assert_eq!(
        flat(&attrs),
        vec![
            kv("db.system", s("aws_dynamodb")),
            kv("aws.dynamodb.table_names", s("t")),
            kv("aws.dynamodb.limit", V::I(-3)),
        ]
    );
}

#[test]
fn dynamodb_mismatched_input_gives_only_system() {
    let input = DynamoDbInput::PutItem { table_name: some("t") };
    let attrs = DynamoDbAttributeBuilder.build_attributes("dynamodb", "GetItem", &input);
    assert_eq!(flat(&attrs), vec![kv("db.system", s("aws_dynamodb"))]);
}

// ----- SQS -----

#[test]
fn sqs_send_message() {
    let input = SqsInput::SendMessage { queue_url: some("https://sqs.us-east-1.amazonaws.com/123456789012/my-queue") };
    let attrs = SqsAttributeBuilder.build_attributes("sqs", "SendMessage", &input);
    assert_eq!(
        flat(&attrs),
        vec![
            kv("messaging.system", s("aws_sqs")),
            kv("messaging.operation.type", s("send")),
            kv("server.address", s("https://sqs.us-east-1.amazonaws.com/123456789012/my-queue")),
            kv("messaging.destination.name", s("my-queue")),
        ]
    );
}

#[test]
fn sqs_send_message_batch() {
    let input = SqsInput::SendMessageBatch { queue_url: some("q"), entry_count: 3 };
    let attrs = SqsAttributeBuilder.build_attributes("sqs", "SendMessageBatch", &input);
    assert_eq!(
        flat(&attrs),
        vec![
            kv("messaging.system", s("aws_sqs")),
            kv("messaging.operation.type", s("send")),
            kv("server.address", s("q")),
            kv("messaging.batch.message_count", V::I(3)),
            kv("messaging.destination.name", s("q")),
        ]
    );
}

#[test]
fn sqs_receive_message_without_url() {
    let input = SqsInput::ReceiveMessage { queue_url: None, max_number_of_messages: Some(10) };
    let attrs = SqsAttributeBuilder.build_attributes("sqs", "ReceiveMessage", &input);
    assert_eq!(
        flat(&attrs),
        vec![
            kv("messaging.system", s("aws_sqs")),
            kv("messaging.operation.type", s("receive")),
            kv("server.address", s("")),
            kv("aws.sqs.max_messages", V::I(10)),
        ]
    );
}

#[test]
fn sqs_url_ending_in_slash_gives_empty_name() {
    let input = SqsInput::SendMessage { queue_url: some("https://host/queue/") };
    let attrs = SqsAttributeBuilder.build_attributes("sqs", "SendMessage", &input);
    assert_eq!(flat(&attrs)[3], kv("messaging.destination.name", s("")));
}

#[test]
fn sqs_unknown_operation_gives_only_system() {
    let input = SqsInput::SendMessage { queue_url: some("q") };
    let attrs = SqsAttributeBuilder.build_attributes("sqs", "DeleteMessage", &input);
    assert_eq!(flat(&attrs), vec![kv("messaging.system", s("aws_sqs"))]);
}

#[test]
fn sqs_delete_message() {
    let input = SqsInput::DeleteMessage { queue_url: some("https://sqs.us-east-1.amazonaws.com/123456789012/orders") };
    let attrs = SqsAttributeBuilder.build_attributes("sqs", "DeleteMessage", &input);
    assert_eq!(
        flat(&attrs),
        vec![
            kv("messaging.system", s("aws_sqs")),
            kv("messaging.operation.type", s("delete")),
            kv("server.address", s("https://sqs.us-east-1.amazonaws.com/123456789012/orders")),
            kv("messaging.destination.name", s("orders")),
        ]
    );
}

#[test]
fn sqs_delete_message_batch() {
    let input = SqsInput::DeleteMessageBatch { queue_url: some("https://h/1/q"), entry_count: 4 };
    let attrs = SqsAttributeBuilder.build_attributes("sqs", "DeleteMessageBatch", &input);
    assert_eq!(
        flat(&attrs),
        vec![
            kv("messaging.system", s("aws_sqs")),
            kv("messaging.operation.type", s("delete")),
            kv("server.address", s("https://h/1/q")),
            kv("messaging.batch.message_count", V::I(4)),
            kv("messaging.destination.name", s("q")),
        ]
    );
}

// ----- SNS -----

#[test]
fn sns_publish_with_topic_and_target() {
    let input = SnsInput::Publish {
        topic_arn: some("arn:aws:sns:us-east-1:123456789012:my-topic"),
        target_arn: some("arn:aws:sns:us-east-1:123456789012:endpoint/APNS/app/abc"),
        message_attribute_count: None,
    };
    let attrs = SnsAttributeBuilder.build_attributes("sns", "Publish", &input);
    assert_eq!(
        flat(&attrs),
        vec![
            kv("messaging.system", s("aws_sns")),
            kv("messaging.operation.type", s("send")),
            kv("messaging.operation.name", s("publish")),
            kv("messaging.destination.name", s("my-topic")),
            kv("messaging.destination.name", s("endpoint/APNS/app/abc")),
        ]
    );
}

#[test]
fn sns_publish_counts_message_attributes() {
    let input = SnsInput::Publish { topic_arn: some("arn:aws:sns:r:1:t"), target_arn: None, message_attribute_count: Some(3) };
    let attrs = SnsAttributeBuilder.build_attributes("sns", "Publish", &input);
    assert_eq!(
        flat(&attrs),
        vec![
            kv("messaging.system", s("aws_sns")),
            kv("messaging.operation.type", s("send")),
            kv("messaging.operation.name", s("publish")),
            kv("messaging.destination.name", s("t")),
            kv("aws.sns.message_attribute_count", V::I(3)),
        ]
    );
}

#[test]
fn sns_publish_batch() {
    let input = SnsInput::PublishBatch { topic_arn: some("arn:aws:sns:eu-west-1:1:t"), entry_count: 10 };
    let attrs = SnsAttributeBuilder.build_attributes("sns", "PublishBatch", &input);
    assert_eq!(
        flat(&attrs),
        vec![
            kv("messaging.system", s("aws_sns")),
            kv("messaging.operation.type", s("send")),
            kv("messaging.operation.name", s("publish_batch")),
            kv("messaging.batch.message_count", V::I(10)),
            kv("messaging.destination.name", s("t")),
        ]
    );
}

#[test]
fn sns_other_input_gives_only_system() {
    let attrs = SnsAttributeBuilder.build_attributes("sns", "Publish", &SnsInput::Other);
    assert_eq!(flat(&attrs), vec![kv("messaging.system", s("aws_sns"))]);
}

// ----- Lambda -----

#[test]
fn lambda_invoke() {
    let input = LambdaInput::Invoke {
        function_name: some("my-fn"),
        invocation_type: some("Event"),
        qualifier: some("$LATEST"),
    };
    let attrs = LambdaAttributeBuilder.build_attributes("lambda", "Invoke", &input);
    assert_eq!(
        flat(&attrs),
        vec![
            kv("aws.lambda.function_name", s("my-fn")),
            kv("aws.lambda.invocation_type", s("Event")),
            kv("aws.lambda.qualifier", s("$LATEST")),
        ]
    );
}

#[test]
fn lambda_invoke_bare_and_other() {
    let input = LambdaInput::Invoke { function_name: None, invocation_type: None, qualifier: None };
    let attrs = LambdaAttributeBuilder.build_attributes("lambda", "Invoke", &input);
    assert_eq!(flat(&attrs), vec![kv("aws.lambda.function_name", s(""))]);
    assert!(LambdaAttributeBuilder.build_attributes("lambda", "ListFunctions", &input).is_empty());
}

// ----- limits -----

#[test]
fn limit_cuts_string_values_only() {
    let input = SqsInput::SendMessageBatch { queue_url: some("abcdef/ghé"), entry_count: 123456 };
    let attrs = SqsAttributeBuilder.build_attributes("sqs", "SendMessageBatch", &input);
    let limited = limit_attribute_values(attrs.clone(), 3);
    assert_eq!(
        flat(&limited),
        vec![
            kv("messaging.system", s("aws")),
            kv("messaging.operation.type", s("sen")),
            kv("server.address", s("abc")),
            kv("messaging.batch.message_count", V::I(123456)),
            kv("messaging.destination.name", s("ghé")),
        ]
    );
    assert_eq!(flat(&limit_attribute_values(attrs.clone(), 0)), flat(&attrs));
    assert_eq!(flat(&limit_attribute_values(attrs.clone(), 1000)), flat(&attrs));
}

// ----- last piece of a separated text -----

#[test]
fn last_segment_cases() {
    assert_eq!(last_segment("a/b/c", '/'), "c");
    assert_eq!(last_segment("abc", '/'), "abc");
    assert_eq!(last_segment("", '/'), "");
    assert_eq!(last_segment("a/", '/'), "");
    assert_eq!(last_segment("/", '/'), "");
    assert_eq!(last_segment("x:y:zé", ':'), "zé");
    for text in ["a/b/c", "abc", "", "a/", "/", "x/yé/z"] {
        assert_eq!(last_segment(text, '/'), text.split('/').last().unwrap());
    }
}
