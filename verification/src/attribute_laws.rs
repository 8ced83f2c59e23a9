//! Laws of the attribute builders: what each builder gives for each
//! operation it reads, field by field.
use vstd::prelude::*;

use crate::attributes::{
    bool_attr, dynamodb_attributes, int_attr, lambda_attributes, s3_attributes, sns_attributes,
    sqs_attributes, text_attr, text_or_empty, AttributeValueView, AttributeView, DynamoDbInput, LambdaInput, S3Input,
    SnsInput, SqsInput,
};
use crate::interceptor::has_key;
use crate::text::after_last;

verus! {

// ---------------------------------------------------------------------------
// Membership in lists of attributes
// ---------------------------------------------------------------------------

pub(crate) broadcast proof fn lemma_empty_holds_nothing(x: AttributeView, k: Seq<char>)
    ensures
        !#[trigger] Seq::<AttributeView>::empty().contains(x),
        !#[trigger] has_key(Seq::<AttributeView>::empty(), k),
{
}

pub(crate) broadcast proof fn lemma_push_contains(s: Seq<AttributeView>, a: AttributeView, x: AttributeView)
    ensures
        #[trigger] s.push(a).contains(x) <==> (s.contains(x) || a == x),
{
    if s.push(a).contains(x) {
        let i = choose|i: int| 0 <= i < s.push(a).len() && s.push(a)[i] == x;
        if i < s.len() {
            assert(s[i] == x);
        }
    }
    if s.contains(x) {
        let i = choose|i: int| 0 <= i < s.len() && s[i] == x;
        assert(s.push(a)[i] == x);
    }
    if a == x {
        assert(s.push(a)[s.len() as int] == x);
    }
}

pub(crate) broadcast proof fn lemma_push_has_key(s: Seq<AttributeView>, a: AttributeView, k: Seq<char>)
    ensures
        #[trigger] has_key(s.push(a), k) <==> (has_key(s, k) || a.key == k),
{
    if has_key(s.push(a), k) {
        let i = choose|i: int| 0 <= i < s.push(a).len() && #[trigger] s.push(a)[i].key == k;
        if i < s.len() {
            assert(s[i].key == k);
        }
    }
    if has_key(s, k) {
        let i = choose|i: int| 0 <= i < s.len() && #[trigger] s[i].key == k;
        assert(s.push(a)[i].key == k);
    }
    if a.key == k {
        assert(s.push(a)[s.len() as int].key == k);
    }
}

pub(crate) broadcast proof fn lemma_concat_contains(a: Seq<AttributeView>, b: Seq<AttributeView>, x: AttributeView)
    ensures
        #[trigger] (a + b).contains(x) <==> (a.contains(x) || b.contains(x)),
{
    if (a + b).contains(x) {
        let i = choose|i: int| 0 <= i < (a + b).len() && (a + b)[i] == x;
        if i >= a.len() {
            assert(b[i - a.len()] == x);
        }
    }
    if a.contains(x) {
        let i = choose|i: int| 0 <= i < a.len() && a[i] == x;
        assert((a + b)[i] == x);
    }
    if b.contains(x) {
        let i = choose|i: int| 0 <= i < b.len() && b[i] == x;
        assert((a + b)[a.len() + i] == x);
    }
}

pub(crate) broadcast proof fn lemma_concat_has_key(a: Seq<AttributeView>, b: Seq<AttributeView>, k: Seq<char>)
    ensures
        #[trigger] has_key(a + b, k) <==> (has_key(a, k) || has_key(b, k)),
{
    if has_key(a + b, k) {
        let i = choose|i: int| 0 <= i < (a + b).len() && #[trigger] (a + b)[i].key == k;
        if i >= a.len() {
            assert(b[i - a.len()].key == k);
        }
    }
    if has_key(a, k) {
        let i = choose|i: int| 0 <= i < a.len() && #[trigger] a[i].key == k;
        assert((a + b)[i].key == k);
    }
    if has_key(b, k) {
        let i = choose|i: int| 0 <= i < b.len() && #[trigger] b[i].key == k;
        assert((a + b)[a.len() + i].key == k);
    }
}

pub(crate) broadcast group group_attribute_membership {
    lemma_empty_holds_nothing,
    lemma_push_contains,
    lemma_push_has_key,
    lemma_concat_contains,
    lemma_concat_has_key,
}

/// The S3 operation names and attribute keys differ from each other.
proof fn lemma_s3_names_distinct()
    ensures
        "GetObject"@ != "PutObject"@,
        "GetObject"@ != "DeleteObject"@,
        "GetObject"@ != "HeadObject"@,
        "GetObject"@ != "ListObjects"@,
        "GetObject"@ != "ListObjectsV2"@,
        "GetObject"@ != "CopyObject"@,
        "GetObject"@ != "CreateMultipartUpload"@,
        "GetObject"@ != "UploadPart"@,
        "GetObject"@ != "UploadPartCopy"@,
        "GetObject"@ != "CompleteMultipartUpload"@,
        "GetObject"@ != "AbortMultipartUpload"@,
        "GetObject"@ != "aws.s3.bucket"@,
        "GetObject"@ != "aws.s3.key"@,
        "GetObject"@ != "aws.s3.prefix"@,
        "GetObject"@ != "aws.s3.max_keys"@,
        "GetObject"@ != "aws.s3.copy_source"@,
        "GetObject"@ != "aws.s3.upload_id"@,
        "GetObject"@ != "aws.s3.part_number"@,
        "PutObject"@ != "DeleteObject"@,
        "PutObject"@ != "HeadObject"@,
        "PutObject"@ != "ListObjects"@,
        "PutObject"@ != "ListObjectsV2"@,
        "PutObject"@ != "CopyObject"@,
        "PutObject"@ != "CreateMultipartUpload"@,
        "PutObject"@ != "UploadPart"@,
        "PutObject"@ != "UploadPartCopy"@,
        "PutObject"@ != "CompleteMultipartUpload"@,
        "PutObject"@ != "AbortMultipartUpload"@,
        "PutObject"@ != "aws.s3.bucket"@,
        "PutObject"@ != "aws.s3.key"@,
        "PutObject"@ != "aws.s3.prefix"@,
        "PutObject"@ != "aws.s3.max_keys"@,
        "PutObject"@ != "aws.s3.copy_source"@,
        "PutObject"@ != "aws.s3.upload_id"@,
        "PutObject"@ != "aws.s3.part_number"@,
        "DeleteObject"@ != "HeadObject"@,
        "DeleteObject"@ != "ListObjects"@,
        "DeleteObject"@ != "ListObjectsV2"@,
        "DeleteObject"@ != "CopyObject"@,
        "DeleteObject"@ != "CreateMultipartUpload"@,
        "DeleteObject"@ != "UploadPart"@,
        "DeleteObject"@ != "UploadPartCopy"@,
        "DeleteObject"@ != "CompleteMultipartUpload"@,
        "DeleteObject"@ != "AbortMultipartUpload"@,
        "DeleteObject"@ != "aws.s3.bucket"@,
        "DeleteObject"@ != "aws.s3.key"@,
        "DeleteObject"@ != "aws.s3.prefix"@,
        "DeleteObject"@ != "aws.s3.max_keys"@,
        "DeleteObject"@ != "aws.s3.copy_source"@,
        "DeleteObject"@ != "aws.s3.upload_id"@,
        "DeleteObject"@ != "aws.s3.part_number"@,
        "HeadObject"@ != "ListObjects"@,
        "HeadObject"@ != "ListObjectsV2"@,
        "HeadObject"@ != "CopyObject"@,
        "HeadObject"@ != "CreateMultipartUpload"@,
        "HeadObject"@ != "UploadPart"@,
        "HeadObject"@ != "UploadPartCopy"@,
        "HeadObject"@ != "CompleteMultipartUpload"@,
        "HeadObject"@ != "AbortMultipartUpload"@,
        "HeadObject"@ != "aws.s3.bucket"@,
        "HeadObject"@ != "aws.s3.key"@,
        "HeadObject"@ != "aws.s3.prefix"@,
        "HeadObject"@ != "aws.s3.max_keys"@,
        "HeadObject"@ != "aws.s3.copy_source"@,
        "HeadObject"@ != "aws.s3.upload_id"@,
        "HeadObject"@ != "aws.s3.part_number"@,
        "ListObjects"@ != "ListObjectsV2"@,
        "ListObjects"@ != "CopyObject"@,
        "ListObjects"@ != "CreateMultipartUpload"@,
        "ListObjects"@ != "UploadPart"@,
        "ListObjects"@ != "UploadPartCopy"@,
        "ListObjects"@ != "CompleteMultipartUpload"@,
        "ListObjects"@ != "AbortMultipartUpload"@,
        "ListObjects"@ != "aws.s3.bucket"@,
        "ListObjects"@ != "aws.s3.key"@,
        "ListObjects"@ != "aws.s3.prefix"@,
        "ListObjects"@ != "aws.s3.max_keys"@,
        "ListObjects"@ != "aws.s3.copy_source"@,
        "ListObjects"@ != "aws.s3.upload_id"@,
        "ListObjects"@ != "aws.s3.part_number"@,
        "ListObjectsV2"@ != "CopyObject"@,
        "ListObjectsV2"@ != "CreateMultipartUpload"@,
        "ListObjectsV2"@ != "UploadPart"@,
        "ListObjectsV2"@ != "UploadPartCopy"@,
        "ListObjectsV2"@ != "CompleteMultipartUpload"@,
        "ListObjectsV2"@ != "AbortMultipartUpload"@,
        "ListObjectsV2"@ != "aws.s3.bucket"@,
        "ListObjectsV2"@ != "aws.s3.key"@,
        "ListObjectsV2"@ != "aws.s3.prefix"@,
        "ListObjectsV2"@ != "aws.s3.max_keys"@,
        "ListObjectsV2"@ != "aws.s3.copy_source"@,
        "ListObjectsV2"@ != "aws.s3.upload_id"@,
        "ListObjectsV2"@ != "aws.s3.part_number"@,
        "CopyObject"@ != "CreateMultipartUpload"@,
        "CopyObject"@ != "UploadPart"@,
        "CopyObject"@ != "UploadPartCopy"@,
        "CopyObject"@ != "CompleteMultipartUpload"@,
        "CopyObject"@ != "AbortMultipartUpload"@,
        "CopyObject"@ != "aws.s3.bucket"@,
        "CopyObject"@ != "aws.s3.key"@,
        "CopyObject"@ != "aws.s3.prefix"@,
        "CopyObject"@ != "aws.s3.max_keys"@,
        "CopyObject"@ != "aws.s3.copy_source"@,
        "CopyObject"@ != "aws.s3.upload_id"@,
        "CopyObject"@ != "aws.s3.part_number"@,
        "CreateMultipartUpload"@ != "UploadPart"@,
        "CreateMultipartUpload"@ != "UploadPartCopy"@,
        "CreateMultipartUpload"@ != "CompleteMultipartUpload"@,
        "CreateMultipartUpload"@ != "AbortMultipartUpload"@,
        "CreateMultipartUpload"@ != "aws.s3.bucket"@,
        "CreateMultipartUpload"@ != "aws.s3.key"@,
        "CreateMultipartUpload"@ != "aws.s3.prefix"@,
        "CreateMultipartUpload"@ != "aws.s3.max_keys"@,
        "CreateMultipartUpload"@ != "aws.s3.copy_source"@,
        "CreateMultipartUpload"@ != "aws.s3.upload_id"@,
        "CreateMultipartUpload"@ != "aws.s3.part_number"@,
        "UploadPart"@ != "UploadPartCopy"@,
        "UploadPart"@ != "CompleteMultipartUpload"@,
        "UploadPart"@ != "AbortMultipartUpload"@,
        "UploadPart"@ != "aws.s3.bucket"@,
        "UploadPart"@ != "aws.s3.key"@,
        "UploadPart"@ != "aws.s3.prefix"@,
        "UploadPart"@ != "aws.s3.max_keys"@,
        "UploadPart"@ != "aws.s3.copy_source"@,
        "UploadPart"@ != "aws.s3.upload_id"@,
        "UploadPart"@ != "aws.s3.part_number"@,
        "UploadPartCopy"@ != "CompleteMultipartUpload"@,
        "UploadPartCopy"@ != "AbortMultipartUpload"@,
        "UploadPartCopy"@ != "aws.s3.bucket"@,
        "UploadPartCopy"@ != "aws.s3.key"@,
        "UploadPartCopy"@ != "aws.s3.prefix"@,
        "UploadPartCopy"@ != "aws.s3.max_keys"@,
        "UploadPartCopy"@ != "aws.s3.copy_source"@,
        "UploadPartCopy"@ != "aws.s3.upload_id"@,
        "UploadPartCopy"@ != "aws.s3.part_number"@,
        "CompleteMultipartUpload"@ != "AbortMultipartUpload"@,
        "CompleteMultipartUpload"@ != "aws.s3.bucket"@,
        "CompleteMultipartUpload"@ != "aws.s3.key"@,
        "CompleteMultipartUpload"@ != "aws.s3.prefix"@,
        "CompleteMultipartUpload"@ != "aws.s3.max_keys"@,
        "CompleteMultipartUpload"@ != "aws.s3.copy_source"@,
        "CompleteMultipartUpload"@ != "aws.s3.upload_id"@,
        "CompleteMultipartUpload"@ != "aws.s3.part_number"@,
        "AbortMultipartUpload"@ != "aws.s3.bucket"@,
        "AbortMultipartUpload"@ != "aws.s3.key"@,
        "AbortMultipartUpload"@ != "aws.s3.prefix"@,
        "AbortMultipartUpload"@ != "aws.s3.max_keys"@,
        "AbortMultipartUpload"@ != "aws.s3.copy_source"@,
        "AbortMultipartUpload"@ != "aws.s3.upload_id"@,
        "AbortMultipartUpload"@ != "aws.s3.part_number"@,
        "aws.s3.bucket"@ != "aws.s3.key"@,
        "aws.s3.bucket"@ != "aws.s3.prefix"@,
        "aws.s3.bucket"@ != "aws.s3.max_keys"@,
        "aws.s3.bucket"@ != "aws.s3.copy_source"@,
        "aws.s3.bucket"@ != "aws.s3.upload_id"@,
        "aws.s3.bucket"@ != "aws.s3.part_number"@,
        "aws.s3.key"@ != "aws.s3.prefix"@,
        "aws.s3.key"@ != "aws.s3.max_keys"@,
        "aws.s3.key"@ != "aws.s3.copy_source"@,
        "aws.s3.key"@ != "aws.s3.upload_id"@,
        "aws.s3.key"@ != "aws.s3.part_number"@,
        "aws.s3.prefix"@ != "aws.s3.max_keys"@,
        "aws.s3.prefix"@ != "aws.s3.copy_source"@,
        "aws.s3.prefix"@ != "aws.s3.upload_id"@,
        "aws.s3.prefix"@ != "aws.s3.part_number"@,
        "aws.s3.max_keys"@ != "aws.s3.copy_source"@,
        "aws.s3.max_keys"@ != "aws.s3.upload_id"@,
        "aws.s3.max_keys"@ != "aws.s3.part_number"@,
        "aws.s3.copy_source"@ != "aws.s3.upload_id"@,
        "aws.s3.copy_source"@ != "aws.s3.part_number"@,
        "aws.s3.upload_id"@ != "aws.s3.part_number"@,
{
    reveal_strlit("GetObject");
    reveal_strlit("PutObject");
    reveal_strlit("DeleteObject");
    reveal_strlit("HeadObject");
    reveal_strlit("ListObjects");
    reveal_strlit("ListObjectsV2");
    reveal_strlit("CopyObject");
    reveal_strlit("CreateMultipartUpload");
    reveal_strlit("UploadPart");
    reveal_strlit("UploadPartCopy");
    reveal_strlit("CompleteMultipartUpload");
    reveal_strlit("AbortMultipartUpload");
    reveal_strlit("aws.s3.bucket");
    reveal_strlit("aws.s3.key");
    reveal_strlit("aws.s3.prefix");
    reveal_strlit("aws.s3.max_keys");
    reveal_strlit("aws.s3.copy_source");
    reveal_strlit("aws.s3.upload_id");
    reveal_strlit("aws.s3.part_number");
    assert("GetObject"@[0] != "PutObject"@[0]);
    assert("GetObject"@.len() != "DeleteObject"@.len());
    assert("GetObject"@.len() != "HeadObject"@.len());
    assert("GetObject"@.len() != "ListObjects"@.len());
    assert("GetObject"@.len() != "ListObjectsV2"@.len());
    assert("GetObject"@.len() != "CopyObject"@.len());
    assert("GetObject"@.len() != "CreateMultipartUpload"@.len());
    assert("GetObject"@.len() != "UploadPart"@.len());
    assert("GetObject"@.len() != "UploadPartCopy"@.len());
    assert("GetObject"@.len() != "CompleteMultipartUpload"@.len());
    assert("GetObject"@.len() != "AbortMultipartUpload"@.len());
    assert("GetObject"@.len() != "aws.s3.bucket"@.len());
    assert("GetObject"@.len() != "aws.s3.key"@.len());
    assert("GetObject"@.len() != "aws.s3.prefix"@.len());
    assert("GetObject"@.len() != "aws.s3.max_keys"@.len());
    assert("GetObject"@.len() != "aws.s3.copy_source"@.len());
    assert("GetObject"@.len() != "aws.s3.upload_id"@.len());
    assert("GetObject"@.len() != "aws.s3.part_number"@.len());
    assert("PutObject"@.len() != "DeleteObject"@.len());
    assert("PutObject"@.len() != "HeadObject"@.len());
    assert("PutObject"@.len() != "ListObjects"@.len());
    assert("PutObject"@.len() != "ListObjectsV2"@.len());
    assert("PutObject"@.len() != "CopyObject"@.len());
    assert("PutObject"@.len() != "CreateMultipartUpload"@.len());
    assert("PutObject"@.len() != "UploadPart"@.len());
    assert("PutObject"@.len() != "UploadPartCopy"@.len());
    assert("PutObject"@.len() != "CompleteMultipartUpload"@.len());
    assert("PutObject"@.len() != "AbortMultipartUpload"@.len());
    assert("PutObject"@.len() != "aws.s3.bucket"@.len());
    assert("PutObject"@.len() != "aws.s3.key"@.len());
    assert("PutObject"@.len() != "aws.s3.prefix"@.len());
    assert("PutObject"@.len() != "aws.s3.max_keys"@.len());
    assert("PutObject"@.len() != "aws.s3.copy_source"@.len());
    assert("PutObject"@.len() != "aws.s3.upload_id"@.len());
    assert("PutObject"@.len() != "aws.s3.part_number"@.len());
    assert("DeleteObject"@.len() != "HeadObject"@.len());
    assert("DeleteObject"@.len() != "ListObjects"@.len());
    assert("DeleteObject"@.len() != "ListObjectsV2"@.len());
    assert("DeleteObject"@.len() != "CopyObject"@.len());
    assert("DeleteObject"@.len() != "CreateMultipartUpload"@.len());
    assert("DeleteObject"@.len() != "UploadPart"@.len());
    assert("DeleteObject"@.len() != "UploadPartCopy"@.len());
    assert("DeleteObject"@.len() != "CompleteMultipartUpload"@.len());
    assert("DeleteObject"@.len() != "AbortMultipartUpload"@.len());
    assert("DeleteObject"@.len() != "aws.s3.bucket"@.len());
    assert("DeleteObject"@.len() != "aws.s3.key"@.len());
    assert("DeleteObject"@.len() != "aws.s3.prefix"@.len());
    assert("DeleteObject"@.len() != "aws.s3.max_keys"@.len());
    assert("DeleteObject"@.len() != "aws.s3.copy_source"@.len());
    assert("DeleteObject"@.len() != "aws.s3.upload_id"@.len());
    assert("DeleteObject"@.len() != "aws.s3.part_number"@.len());
    assert("HeadObject"@.len() != "ListObjects"@.len());
    assert("HeadObject"@.len() != "ListObjectsV2"@.len());
    assert("HeadObject"@[0] != "CopyObject"@[0]);
    assert("HeadObject"@.len() != "CreateMultipartUpload"@.len());
    assert("HeadObject"@[0] != "UploadPart"@[0]);
    assert("HeadObject"@.len() != "UploadPartCopy"@.len());
    assert("HeadObject"@.len() != "CompleteMultipartUpload"@.len());
    assert("HeadObject"@.len() != "AbortMultipartUpload"@.len());
    assert("HeadObject"@.len() != "aws.s3.bucket"@.len());
    assert("HeadObject"@[0] != "aws.s3.key"@[0]);
    assert("HeadObject"@.len() != "aws.s3.prefix"@.len());
    assert("HeadObject"@.len() != "aws.s3.max_keys"@.len());
    assert("HeadObject"@.len() != "aws.s3.copy_source"@.len());
    assert("HeadObject"@.len() != "aws.s3.upload_id"@.len());
    assert("HeadObject"@.len() != "aws.s3.part_number"@.len());
    assert("ListObjects"@.len() != "ListObjectsV2"@.len());
    assert("ListObjects"@.len() != "CopyObject"@.len());
    assert("ListObjects"@.len() != "CreateMultipartUpload"@.len());
    assert("ListObjects"@.len() != "UploadPart"@.len());
    assert("ListObjects"@.len() != "UploadPartCopy"@.len());
    assert("ListObjects"@.len() != "CompleteMultipartUpload"@.len());
    assert("ListObjects"@.len() != "AbortMultipartUpload"@.len());
    assert("ListObjects"@.len() != "aws.s3.bucket"@.len());
    assert("ListObjects"@.len() != "aws.s3.key"@.len());
    assert("ListObjects"@.len() != "aws.s3.prefix"@.len());
    assert("ListObjects"@.len() != "aws.s3.max_keys"@.len());
    assert("ListObjects"@.len() != "aws.s3.copy_source"@.len());
    assert("ListObjects"@.len() != "aws.s3.upload_id"@.len());
    assert("ListObjects"@.len() != "aws.s3.part_number"@.len());
    assert("ListObjectsV2"@.len() != "CopyObject"@.len());
    assert("ListObjectsV2"@.len() != "CreateMultipartUpload"@.len());
    assert("ListObjectsV2"@.len() != "UploadPart"@.len());
    assert("ListObjectsV2"@.len() != "UploadPartCopy"@.len());
    assert("ListObjectsV2"@.len() != "CompleteMultipartUpload"@.len());
    assert("ListObjectsV2"@.len() != "AbortMultipartUpload"@.len());
    assert("ListObjectsV2"@[0] != "aws.s3.bucket"@[0]);
    assert("ListObjectsV2"@.len() != "aws.s3.key"@.len());
    assert("ListObjectsV2"@[0] != "aws.s3.prefix"@[0]);
    assert("ListObjectsV2"@.len() != "aws.s3.max_keys"@.len());
    assert("ListObjectsV2"@.len() != "aws.s3.copy_source"@.len());
    assert("ListObjectsV2"@.len() != "aws.s3.upload_id"@.len());
    assert("ListObjectsV2"@.len() != "aws.s3.part_number"@.len());
    assert("CopyObject"@.len() != "CreateMultipartUpload"@.len());
    assert("CopyObject"@[0] != "UploadPart"@[0]);
    assert("CopyObject"@.len() != "UploadPartCopy"@.len());
    assert("CopyObject"@.len() != "CompleteMultipartUpload"@.len());
    assert("CopyObject"@.len() != "AbortMultipartUpload"@.len());
    assert("CopyObject"@.len() != "aws.s3.bucket"@.len());
    assert("CopyObject"@[0] != "aws.s3.key"@[0]);
    assert("CopyObject"@.len() != "aws.s3.prefix"@.len());
    assert("CopyObject"@.len() != "aws.s3.max_keys"@.len());
    assert("CopyObject"@.len() != "aws.s3.copy_source"@.len());
    assert("CopyObject"@.len() != "aws.s3.upload_id"@.len());
    assert("CopyObject"@.len() != "aws.s3.part_number"@.len());
    assert("CreateMultipartUpload"@.len() != "UploadPart"@.len());
    assert("CreateMultipartUpload"@.len() != "UploadPartCopy"@.len());
    assert("CreateMultipartUpload"@.len() != "CompleteMultipartUpload"@.len());
    assert("CreateMultipartUpload"@.len() != "AbortMultipartUpload"@.len());
    assert("CreateMultipartUpload"@.len() != "aws.s3.bucket"@.len());
    assert("CreateMultipartUpload"@.len() != "aws.s3.key"@.len());
    assert("CreateMultipartUpload"@.len() != "aws.s3.prefix"@.len());
    assert("CreateMultipartUpload"@.len() != "aws.s3.max_keys"@.len());
    assert("CreateMultipartUpload"@.len() != "aws.s3.copy_source"@.len());
    assert("CreateMultipartUpload"@.len() != "aws.s3.upload_id"@.len());
    assert("CreateMultipartUpload"@.len() != "aws.s3.part_number"@.len());
    assert("UploadPart"@.len() != "UploadPartCopy"@.len());
    assert("UploadPart"@.len() != "CompleteMultipartUpload"@.len());
    assert("UploadPart"@.len() != "AbortMultipartUpload"@.len());
    assert("UploadPart"@.len() != "aws.s3.bucket"@.len());
    assert("UploadPart"@[0] != "aws.s3.key"@[0]);
    assert("UploadPart"@.len() != "aws.s3.prefix"@.len());
    assert("UploadPart"@.len() != "aws.s3.max_keys"@.len());
    assert("UploadPart"@.len() != "aws.s3.copy_source"@.len());
    assert("UploadPart"@.len() != "aws.s3.upload_id"@.len());
    assert("UploadPart"@.len() != "aws.s3.part_number"@.len());
    assert("UploadPartCopy"@.len() != "CompleteMultipartUpload"@.len());
    assert("UploadPartCopy"@.len() != "AbortMultipartUpload"@.len());
    assert("UploadPartCopy"@.len() != "aws.s3.bucket"@.len());
    assert("UploadPartCopy"@.len() != "aws.s3.key"@.len());
    assert("UploadPartCopy"@.len() != "aws.s3.prefix"@.len());
    assert("UploadPartCopy"@.len() != "aws.s3.max_keys"@.len());
    assert("UploadPartCopy"@.len() != "aws.s3.copy_source"@.len());
    assert("UploadPartCopy"@.len() != "aws.s3.upload_id"@.len());
    assert("UploadPartCopy"@.len() != "aws.s3.part_number"@.len());
    assert("CompleteMultipartUpload"@.len() != "AbortMultipartUpload"@.len());
    assert("CompleteMultipartUpload"@.len() != "aws.s3.bucket"@.len());
    assert("CompleteMultipartUpload"@.len() != "aws.s3.key"@.len());
    assert("CompleteMultipartUpload"@.len() != "aws.s3.prefix"@.len());
    assert("CompleteMultipartUpload"@.len() != "aws.s3.max_keys"@.len());
    assert("CompleteMultipartUpload"@.len() != "aws.s3.copy_source"@.len());
    assert("CompleteMultipartUpload"@.len() != "aws.s3.upload_id"@.len());
    assert("CompleteMultipartUpload"@.len() != "aws.s3.part_number"@.len());
    assert("AbortMultipartUpload"@.len() != "aws.s3.bucket"@.len());
    assert("AbortMultipartUpload"@.len() != "aws.s3.key"@.len());
    assert("AbortMultipartUpload"@.len() != "aws.s3.prefix"@.len());
    assert("AbortMultipartUpload"@.len() != "aws.s3.max_keys"@.len());
    assert("AbortMultipartUpload"@.len() != "aws.s3.copy_source"@.len());
    assert("AbortMultipartUpload"@.len() != "aws.s3.upload_id"@.len());
    assert("AbortMultipartUpload"@.len() != "aws.s3.part_number"@.len());
    assert("aws.s3.bucket"@.len() != "aws.s3.key"@.len());
    assert("aws.s3.bucket"@[7] != "aws.s3.prefix"@[7]);
    assert("aws.s3.bucket"@.len() != "aws.s3.max_keys"@.len());
    assert("aws.s3.bucket"@.len() != "aws.s3.copy_source"@.len());
    assert("aws.s3.bucket"@.len() != "aws.s3.upload_id"@.len());
    assert("aws.s3.bucket"@.len() != "aws.s3.part_number"@.len());
    assert("aws.s3.key"@.len() != "aws.s3.prefix"@.len());
    assert("aws.s3.key"@.len() != "aws.s3.max_keys"@.len());
    assert("aws.s3.key"@.len() != "aws.s3.copy_source"@.len());
    assert("aws.s3.key"@.len() != "aws.s3.upload_id"@.len());
    assert("aws.s3.key"@.len() != "aws.s3.part_number"@.len());
    assert("aws.s3.prefix"@.len() != "aws.s3.max_keys"@.len());
    assert("aws.s3.prefix"@.len() != "aws.s3.copy_source"@.len());
    assert("aws.s3.prefix"@.len() != "aws.s3.upload_id"@.len());
    assert("aws.s3.prefix"@.len() != "aws.s3.part_number"@.len());
    assert("aws.s3.max_keys"@.len() != "aws.s3.copy_source"@.len());
    assert("aws.s3.max_keys"@.len() != "aws.s3.upload_id"@.len());
    assert("aws.s3.max_keys"@.len() != "aws.s3.part_number"@.len());
    assert("aws.s3.copy_source"@.len() != "aws.s3.upload_id"@.len());
    assert("aws.s3.copy_source"@[7] != "aws.s3.part_number"@[7]);
    assert("aws.s3.upload_id"@.len() != "aws.s3.part_number"@.len());
}
/// The DynamoDB operation names and attribute keys differ from each other.
proof fn lemma_dynamodb_names_distinct()
    ensures
        "GetItem"@ != "PutItem"@,
        "GetItem"@ != "Query"@,
        "GetItem"@ != "Scan"@,
        "GetItem"@ != "db.system"@,
        "GetItem"@ != "aws.dynamodb.table_names"@,
        "GetItem"@ != "aws.dynamodb.index_name"@,
        "GetItem"@ != "aws.dynamodb.consistent_read"@,
        "GetItem"@ != "aws.dynamodb.projection"@,
        "GetItem"@ != "aws.dynamodb.limit"@,
        "GetItem"@ != "aws.dynamodb.scan_forward"@,
        "PutItem"@ != "Query"@,
        "PutItem"@ != "Scan"@,
        "PutItem"@ != "db.system"@,
        "PutItem"@ != "aws.dynamodb.table_names"@,
        "PutItem"@ != "aws.dynamodb.index_name"@,
        "PutItem"@ != "aws.dynamodb.consistent_read"@,
        "PutItem"@ != "aws.dynamodb.projection"@,
        "PutItem"@ != "aws.dynamodb.limit"@,
        "PutItem"@ != "aws.dynamodb.scan_forward"@,
        "Query"@ != "Scan"@,
        "Query"@ != "db.system"@,
        "Query"@ != "aws.dynamodb.table_names"@,
        "Query"@ != "aws.dynamodb.index_name"@,
        "Query"@ != "aws.dynamodb.consistent_read"@,
        "Query"@ != "aws.dynamodb.projection"@,
        "Query"@ != "aws.dynamodb.limit"@,
        "Query"@ != "aws.dynamodb.scan_forward"@,
        "Scan"@ != "db.system"@,
        "Scan"@ != "aws.dynamodb.table_names"@,
        "Scan"@ != "aws.dynamodb.index_name"@,
        "Scan"@ != "aws.dynamodb.consistent_read"@,
        "Scan"@ != "aws.dynamodb.projection"@,
        "Scan"@ != "aws.dynamodb.limit"@,
        "Scan"@ != "aws.dynamodb.scan_forward"@,
        "db.system"@ != "aws.dynamodb.table_names"@,
        "db.system"@ != "aws.dynamodb.index_name"@,
        "db.system"@ != "aws.dynamodb.consistent_read"@,
        "db.system"@ != "aws.dynamodb.projection"@,
        "db.system"@ != "aws.dynamodb.limit"@,
        "db.system"@ != "aws.dynamodb.scan_forward"@,
        "aws.dynamodb.table_names"@ != "aws.dynamodb.index_name"@,
        "aws.dynamodb.table_names"@ != "aws.dynamodb.consistent_read"@,
        "aws.dynamodb.table_names"@ != "aws.dynamodb.projection"@,
        "aws.dynamodb.table_names"@ != "aws.dynamodb.limit"@,
        "aws.dynamodb.table_names"@ != "aws.dynamodb.scan_forward"@,
        "aws.dynamodb.index_name"@ != "aws.dynamodb.consistent_read"@,
        "aws.dynamodb.index_name"@ != "aws.dynamodb.projection"@,
        "aws.dynamodb.index_name"@ != "aws.dynamodb.limit"@,
        "aws.dynamodb.index_name"@ != "aws.dynamodb.scan_forward"@,
        "aws.dynamodb.consistent_read"@ != "aws.dynamodb.projection"@,
        "aws.dynamodb.consistent_read"@ != "aws.dynamodb.limit"@,
        "aws.dynamodb.consistent_read"@ != "aws.dynamodb.scan_forward"@,
        "aws.dynamodb.projection"@ != "aws.dynamodb.limit"@,
        "aws.dynamodb.projection"@ != "aws.dynamodb.scan_forward"@,
        "aws.dynamodb.limit"@ != "aws.dynamodb.scan_forward"@,
{
    reveal_strlit("GetItem");
    reveal_strlit("PutItem");
    reveal_strlit("Query");
    reveal_strlit("Scan");
    reveal_strlit("db.system");
    reveal_strlit("aws.dynamodb.table_names");
    reveal_strlit("aws.dynamodb.index_name");
    reveal_strlit("aws.dynamodb.consistent_read");
    reveal_strlit("aws.dynamodb.projection");
    reveal_strlit("aws.dynamodb.limit");
    reveal_strlit("aws.dynamodb.scan_forward");
    assert("GetItem"@[0] != "PutItem"@[0]);
    assert("GetItem"@.len() != "Query"@.len());
    assert("GetItem"@.len() != "Scan"@.len());
    assert("GetItem"@.len() != "db.system"@.len());
    assert("GetItem"@.len() != "aws.dynamodb.table_names"@.len());
    assert("GetItem"@.len() != "aws.dynamodb.index_name"@.len());
    assert("GetItem"@.len() != "aws.dynamodb.consistent_read"@.len());
    assert("GetItem"@.len() != "aws.dynamodb.projection"@.len());
    assert("GetItem"@.len() != "aws.dynamodb.limit"@.len());
    assert("GetItem"@.len() != "aws.dynamodb.scan_forward"@.len());
    assert("PutItem"@.len() != "Query"@.len());
    assert("PutItem"@.len() != "Scan"@.len());
    assert("PutItem"@.len() != "db.system"@.len());
    assert("PutItem"@.len() != "aws.dynamodb.table_names"@.len());
    assert("PutItem"@.len() != "aws.dynamodb.index_name"@.len());
    assert("PutItem"@.len() != "aws.dynamodb.consistent_read"@.len());
    assert("PutItem"@.len() != "aws.dynamodb.projection"@.len());
    assert("PutItem"@.len() != "aws.dynamodb.limit"@.len());
    assert("PutItem"@.len() != "aws.dynamodb.scan_forward"@.len());
    assert("Query"@.len() != "Scan"@.len());
    assert("Query"@.len() != "db.system"@.len());
    assert("Query"@.len() != "aws.dynamodb.table_names"@.len());
    assert("Query"@.len() != "aws.dynamodb.index_name"@.len());
    assert("Query"@.len() != "aws.dynamodb.consistent_read"@.len());
    assert("Query"@.len() != "aws.dynamodb.projection"@.len());
    assert("Query"@.len() != "aws.dynamodb.limit"@.len());
    assert("Query"@.len() != "aws.dynamodb.scan_forward"@.len());
    assert("Scan"@.len() != "db.system"@.len());
    assert("Scan"@.len() != "aws.dynamodb.table_names"@.len());
    assert("Scan"@.len() != "aws.dynamodb.index_name"@.len());
    assert("Scan"@.len() != "aws.dynamodb.consistent_read"@.len());
    assert("Scan"@.len() != "aws.dynamodb.projection"@.len());
    assert("Scan"@.len() != "aws.dynamodb.limit"@.len());
    assert("Scan"@.len() != "aws.dynamodb.scan_forward"@.len());
    assert("db.system"@.len() != "aws.dynamodb.table_names"@.len());
    assert("db.system"@.len() != "aws.dynamodb.index_name"@.len());
    assert("db.system"@.len() != "aws.dynamodb.consistent_read"@.len());
    assert("db.system"@.len() != "aws.dynamodb.projection"@.len());
    assert("db.system"@.len() != "aws.dynamodb.limit"@.len());
    assert("db.system"@.len() != "aws.dynamodb.scan_forward"@.len());
    assert("aws.dynamodb.table_names"@.len() != "aws.dynamodb.index_name"@.len());
    assert("aws.dynamodb.table_names"@.len() != "aws.dynamodb.consistent_read"@.len());
    assert("aws.dynamodb.table_names"@.len() != "aws.dynamodb.projection"@.len());
    assert("aws.dynamodb.table_names"@.len() != "aws.dynamodb.limit"@.len());
    assert("aws.dynamodb.table_names"@.len() != "aws.dynamodb.scan_forward"@.len());
    assert("aws.dynamodb.index_name"@.len() != "aws.dynamodb.consistent_read"@.len());
    assert("aws.dynamodb.index_name"@[13] != "aws.dynamodb.projection"@[13]);
    assert("aws.dynamodb.index_name"@.len() != "aws.dynamodb.limit"@.len());
    assert("aws.dynamodb.index_name"@.len() != "aws.dynamodb.scan_forward"@.len());
    assert("aws.dynamodb.consistent_read"@.len() != "aws.dynamodb.projection"@.len());
    assert("aws.dynamodb.consistent_read"@.len() != "aws.dynamodb.limit"@.len());
    assert("aws.dynamodb.consistent_read"@.len() != "aws.dynamodb.scan_forward"@.len());
    assert("aws.dynamodb.projection"@.len() != "aws.dynamodb.limit"@.len());
    assert("aws.dynamodb.projection"@.len() != "aws.dynamodb.scan_forward"@.len());
    assert("aws.dynamodb.limit"@.len() != "aws.dynamodb.scan_forward"@.len());
}

/// The SQS operation names and attribute keys differ from each other.
proof fn lemma_sqs_names_distinct()
    ensures
        "SendMessage"@ != "SendMessageBatch"@,
        "SendMessage"@ != "ReceiveMessage"@,
        "SendMessage"@ != "DeleteMessage"@,
        "SendMessage"@ != "DeleteMessageBatch"@,
        "SendMessage"@ != "messaging.system"@,
        "SendMessage"@ != "messaging.operation.type"@,
        "SendMessage"@ != "server.address"@,
        "SendMessage"@ != "messaging.batch.message_count"@,
        "SendMessage"@ != "aws.sqs.max_messages"@,
        "SendMessage"@ != "messaging.destination.name"@,
        "SendMessageBatch"@ != "ReceiveMessage"@,
        "SendMessageBatch"@ != "DeleteMessage"@,
        "SendMessageBatch"@ != "DeleteMessageBatch"@,
        "SendMessageBatch"@ != "messaging.system"@,
        "SendMessageBatch"@ != "messaging.operation.type"@,
        "SendMessageBatch"@ != "server.address"@,
        "SendMessageBatch"@ != "messaging.batch.message_count"@,
        "SendMessageBatch"@ != "aws.sqs.max_messages"@,
        "SendMessageBatch"@ != "messaging.destination.name"@,
        "ReceiveMessage"@ != "DeleteMessage"@,
        "ReceiveMessage"@ != "DeleteMessageBatch"@,
        "ReceiveMessage"@ != "messaging.system"@,
        "ReceiveMessage"@ != "messaging.operation.type"@,
        "ReceiveMessage"@ != "server.address"@,
        "ReceiveMessage"@ != "messaging.batch.message_count"@,
        "ReceiveMessage"@ != "aws.sqs.max_messages"@,
        "ReceiveMessage"@ != "messaging.destination.name"@,
        "DeleteMessage"@ != "DeleteMessageBatch"@,
        "DeleteMessage"@ != "messaging.system"@,
        "DeleteMessage"@ != "messaging.operation.type"@,
        "DeleteMessage"@ != "server.address"@,
        "DeleteMessage"@ != "messaging.batch.message_count"@,
        "DeleteMessage"@ != "aws.sqs.max_messages"@,
        "DeleteMessage"@ != "messaging.destination.name"@,
        "DeleteMessageBatch"@ != "messaging.system"@,
        "DeleteMessageBatch"@ != "messaging.operation.type"@,
        "DeleteMessageBatch"@ != "server.address"@,
        "DeleteMessageBatch"@ != "messaging.batch.message_count"@,
        "DeleteMessageBatch"@ != "aws.sqs.max_messages"@,
        "DeleteMessageBatch"@ != "messaging.destination.name"@,
        "messaging.system"@ != "messaging.operation.type"@,
        "messaging.system"@ != "server.address"@,
        "messaging.system"@ != "messaging.batch.message_count"@,
        "messaging.system"@ != "aws.sqs.max_messages"@,
        "messaging.system"@ != "messaging.destination.name"@,
        "messaging.operation.type"@ != "server.address"@,
        "messaging.operation.type"@ != "messaging.batch.message_count"@,
        "messaging.operation.type"@ != "aws.sqs.max_messages"@,
        "messaging.operation.type"@ != "messaging.destination.name"@,
        "server.address"@ != "messaging.batch.message_count"@,
        "server.address"@ != "aws.sqs.max_messages"@,
        "server.address"@ != "messaging.destination.name"@,
        "messaging.batch.message_count"@ != "aws.sqs.max_messages"@,
        "messaging.batch.message_count"@ != "messaging.destination.name"@,
        "aws.sqs.max_messages"@ != "messaging.destination.name"@,
{
    reveal_strlit("SendMessage");
    reveal_strlit("SendMessageBatch");
    reveal_strlit("ReceiveMessage");
    reveal_strlit("DeleteMessage");
    reveal_strlit("DeleteMessageBatch");
    reveal_strlit("messaging.system");
    reveal_strlit("messaging.operation.type");
    reveal_strlit("server.address");
    reveal_strlit("messaging.batch.message_count");
    reveal_strlit("aws.sqs.max_messages");
    reveal_strlit("messaging.destination.name");
    assert("SendMessage"@.len() != "SendMessageBatch"@.len());
    assert("SendMessage"@.len() != "ReceiveMessage"@.len());
    assert("SendMessage"@.len() != "DeleteMessage"@.len());
    assert("SendMessage"@.len() != "DeleteMessageBatch"@.len());
    assert("SendMessage"@.len() != "messaging.system"@.len());
    assert("SendMessage"@.len() != "messaging.operation.type"@.len());
    assert("SendMessage"@.len() != "server.address"@.len());
    assert("SendMessage"@.len() != "messaging.batch.message_count"@.len());
    assert("SendMessage"@.len() != "aws.sqs.max_messages"@.len());
    assert("SendMessage"@.len() != "messaging.destination.name"@.len());
    assert("SendMessageBatch"@.len() != "ReceiveMessage"@.len());
    assert("SendMessageBatch"@.len() != "DeleteMessage"@.len());
    assert("SendMessageBatch"@.len() != "DeleteMessageBatch"@.len());
    assert("SendMessageBatch"@[0] != "messaging.system"@[0]);
    assert("SendMessageBatch"@.len() != "messaging.operation.type"@.len());
    assert("SendMessageBatch"@.len() != "server.address"@.len());
    assert("SendMessageBatch"@.len() != "messaging.batch.message_count"@.len());
    assert("SendMessageBatch"@.len() != "aws.sqs.max_messages"@.len());
    assert("SendMessageBatch"@.len() != "messaging.destination.name"@.len());
    assert("ReceiveMessage"@.len() != "DeleteMessage"@.len());
    assert("ReceiveMessage"@.len() != "DeleteMessageBatch"@.len());
    assert("ReceiveMessage"@.len() != "messaging.system"@.len());
    assert("ReceiveMessage"@.len() != "messaging.operation.type"@.len());
    assert("ReceiveMessage"@[0] != "server.address"@[0]);
    assert("ReceiveMessage"@.len() != "messaging.batch.message_count"@.len());
    assert("ReceiveMessage"@.len() != "aws.sqs.max_messages"@.len());
    assert("ReceiveMessage"@.len() != "messaging.destination.name"@.len());
    assert("DeleteMessage"@.len() != "DeleteMessageBatch"@.len());
    assert("DeleteMessage"@.len() != "messaging.system"@.len());
    assert("DeleteMessage"@.len() != "messaging.operation.type"@.len());
    assert("DeleteMessage"@.len() != "server.address"@.len());
    assert("DeleteMessage"@.len() != "messaging.batch.message_count"@.len());
    assert("DeleteMessage"@.len() != "aws.sqs.max_messages"@.len());
    assert("DeleteMessage"@.len() != "messaging.destination.name"@.len());
    assert("DeleteMessageBatch"@.len() != "messaging.system"@.len());
    assert("DeleteMessageBatch"@.len() != "messaging.operation.type"@.len());
    assert("DeleteMessageBatch"@.len() != "server.address"@.len());
    assert("DeleteMessageBatch"@.len() != "messaging.batch.message_count"@.len());
    assert("DeleteMessageBatch"@.len() != "aws.sqs.max_messages"@.len());
    assert("DeleteMessageBatch"@.len() != "messaging.destination.name"@.len());
    assert("messaging.system"@.len() != "messaging.operation.type"@.len());
    assert("messaging.system"@.len() != "server.address"@.len());
    assert("messaging.system"@.len() != "messaging.batch.message_count"@.len());
    assert("messaging.system"@.len() != "aws.sqs.max_messages"@.len());
    assert("messaging.system"@.len() != "messaging.destination.name"@.len());
    assert("messaging.operation.type"@.len() != "server.address"@.len());
    assert("messaging.operation.type"@.len() != "messaging.batch.message_count"@.len());
    assert("messaging.operation.type"@.len() != "aws.sqs.max_messages"@.len());
    assert("messaging.operation.type"@.len() != "messaging.destination.name"@.len());
    assert("server.address"@.len() != "messaging.batch.message_count"@.len());
    assert("server.address"@.len() != "aws.sqs.max_messages"@.len());
    assert("server.address"@.len() != "messaging.destination.name"@.len());
    assert("messaging.batch.message_count"@.len() != "aws.sqs.max_messages"@.len());
    assert("messaging.batch.message_count"@.len() != "messaging.destination.name"@.len());
    assert("aws.sqs.max_messages"@.len() != "messaging.destination.name"@.len());
}

/// The SNS operation names and attribute keys differ from each other.
proof fn lemma_sns_names_distinct()
    ensures
        "Publish"@ != "PublishBatch"@,
        "Publish"@ != "messaging.system"@,
        "Publish"@ != "messaging.operation.type"@,
        "Publish"@ != "messaging.operation.name"@,
        "Publish"@ != "messaging.destination.name"@,
        "Publish"@ != "messaging.batch.message_count"@,
        "Publish"@ != "aws.sns.message_attribute_count"@,
        "PublishBatch"@ != "messaging.system"@,
        "PublishBatch"@ != "messaging.operation.type"@,
        "PublishBatch"@ != "messaging.operation.name"@,
        "PublishBatch"@ != "messaging.destination.name"@,
        "PublishBatch"@ != "messaging.batch.message_count"@,
        "PublishBatch"@ != "aws.sns.message_attribute_count"@,
        "messaging.system"@ != "messaging.operation.type"@,
        "messaging.system"@ != "messaging.operation.name"@,
        "messaging.system"@ != "messaging.destination.name"@,
        "messaging.system"@ != "messaging.batch.message_count"@,
        "messaging.system"@ != "aws.sns.message_attribute_count"@,
        "messaging.operation.type"@ != "messaging.operation.name"@,
        "messaging.operation.type"@ != "messaging.destination.name"@,
        "messaging.operation.type"@ != "messaging.batch.message_count"@,
        "messaging.operation.type"@ != "aws.sns.message_attribute_count"@,
        "messaging.operation.name"@ != "messaging.destination.name"@,
        "messaging.operation.name"@ != "messaging.batch.message_count"@,
        "messaging.operation.name"@ != "aws.sns.message_attribute_count"@,
        "messaging.destination.name"@ != "messaging.batch.message_count"@,
        "messaging.destination.name"@ != "aws.sns.message_attribute_count"@,
        "messaging.batch.message_count"@ != "aws.sns.message_attribute_count"@,
{
    reveal_strlit("Publish");
    reveal_strlit("PublishBatch");
    reveal_strlit("messaging.system");
    reveal_strlit("messaging.operation.type");
    reveal_strlit("messaging.operation.name");
    reveal_strlit("messaging.destination.name");
    reveal_strlit("messaging.batch.message_count");
    reveal_strlit("aws.sns.message_attribute_count");
    assert("Publish"@.len() != "PublishBatch"@.len());
    assert("Publish"@.len() != "messaging.system"@.len());
    assert("Publish"@.len() != "messaging.operation.type"@.len());
    assert("Publish"@.len() != "messaging.operation.name"@.len());
    assert("Publish"@.len() != "messaging.destination.name"@.len());
    assert("Publish"@.len() != "messaging.batch.message_count"@.len());
    assert("Publish"@.len() != "aws.sns.message_attribute_count"@.len());
    assert("PublishBatch"@.len() != "messaging.system"@.len());
    assert("PublishBatch"@.len() != "messaging.operation.type"@.len());
    assert("PublishBatch"@.len() != "messaging.operation.name"@.len());
    assert("PublishBatch"@.len() != "messaging.destination.name"@.len());
    assert("PublishBatch"@.len() != "messaging.batch.message_count"@.len());
    assert("PublishBatch"@.len() != "aws.sns.message_attribute_count"@.len());
    assert("messaging.system"@.len() != "messaging.operation.type"@.len());
    assert("messaging.system"@.len() != "messaging.operation.name"@.len());
    assert("messaging.system"@.len() != "messaging.destination.name"@.len());
    assert("messaging.system"@.len() != "messaging.batch.message_count"@.len());
    assert("messaging.system"@.len() != "aws.sns.message_attribute_count"@.len());
    assert("messaging.operation.type"@[20] != "messaging.operation.name"@[20]);
    assert("messaging.operation.type"@.len() != "messaging.destination.name"@.len());
    assert("messaging.operation.type"@.len() != "messaging.batch.message_count"@.len());
    assert("messaging.operation.type"@.len() != "aws.sns.message_attribute_count"@.len());
    assert("messaging.operation.name"@.len() != "messaging.destination.name"@.len());
    assert("messaging.operation.name"@.len() != "messaging.batch.message_count"@.len());
    assert("messaging.operation.name"@.len() != "aws.sns.message_attribute_count"@.len());
    assert("messaging.destination.name"@.len() != "messaging.batch.message_count"@.len());
    assert("messaging.destination.name"@.len() != "aws.sns.message_attribute_count"@.len());
    assert("messaging.batch.message_count"@.len() != "aws.sns.message_attribute_count"@.len());
}

/// The Lambda operation name and attribute keys differ from each other.
proof fn lemma_lambda_names_distinct()
    ensures
        "Invoke"@ != "aws.lambda.function_name"@,
        "Invoke"@ != "aws.lambda.invocation_type"@,
        "Invoke"@ != "aws.lambda.qualifier"@,
        "aws.lambda.function_name"@ != "aws.lambda.invocation_type"@,
        "aws.lambda.function_name"@ != "aws.lambda.qualifier"@,
        "aws.lambda.invocation_type"@ != "aws.lambda.qualifier"@,
{
    reveal_strlit("Invoke");
    reveal_strlit("aws.lambda.function_name");
    reveal_strlit("aws.lambda.invocation_type");
    reveal_strlit("aws.lambda.qualifier");
    assert("Invoke"@.len() != "aws.lambda.function_name"@.len());
    assert("Invoke"@.len() != "aws.lambda.invocation_type"@.len());
    assert("Invoke"@.len() != "aws.lambda.qualifier"@.len());
    assert("aws.lambda.function_name"@.len() != "aws.lambda.invocation_type"@.len());
    assert("aws.lambda.function_name"@.len() != "aws.lambda.qualifier"@.len());
    assert("aws.lambda.invocation_type"@.len() != "aws.lambda.qualifier"@.len());
}

// ---------------------------------------------------------------------------
// Single attributes
// ---------------------------------------------------------------------------

/// A string, integer or boolean attribute holds the key and value it is
/// made from; an absent optional text reads as the empty text, a present one
/// as itself.
pub proof fn lemma_attribute_parts(key: Seq<char>, text: Seq<char>, i: i64, b: bool, o: Option<String>)
    ensures
        text_attr(key, text).key == key,
        text_attr(key, text).value == AttributeValueView::String(text),
        int_attr(key, i).key == key,
        int_attr(key, i).value == AttributeValueView::I64(i),
        bool_attr(key, b).key == key,
        bool_attr(key, b).value == AttributeValueView::Bool(b),
        o matches Some(s) ==> text_or_empty(o) == s@,
        o is None ==> text_or_empty(o) == Seq::<char>::empty(),
{
}

// ---------------------------------------------------------------------------
// S3
// ---------------------------------------------------------------------------

/// An operation on one object, on an object's input, names exactly the
/// object's bucket and key, each the input's value or the empty text where
/// the input has none.
pub proof fn lemma_s3_object_gives_bucket_and_key(
    operation: Seq<char>,
    bucket: Option<String>,
    key: Option<String>,
)
    requires
        operation == "GetObject"@ || operation == "PutObject"@ || operation == "DeleteObject"@
            || operation == "HeadObject"@,
    ensures
        s3_attributes(operation, S3Input::Object { bucket, key }).len() == 2,
        s3_attributes(operation, S3Input::Object { bucket, key }).contains(
            text_attr("aws.s3.bucket"@, text_or_empty(bucket)),
        ),
        s3_attributes(operation, S3Input::Object { bucket, key }).contains(
            text_attr("aws.s3.key"@, text_or_empty(key)),
        ),
        bucket matches Some(b) ==> text_or_empty(bucket) == b@,
        key matches Some(k) ==> text_or_empty(key) == k@,
{
    broadcast use group_attribute_membership;
    lemma_s3_names_distinct();
}

/// A listing names its bucket; it names the prefix exactly where the input
/// has one, with that prefix, and the maximum number of keys exactly where
/// the input has one, with that number, each whatever the other is.
pub proof fn lemma_s3_listing_gives_its_fields(
    operation: Seq<char>,
    bucket: Option<String>,
    prefix: Option<String>,
    max_keys: Option<i32>,
)
    requires
        operation == "ListObjects"@ || operation == "ListObjectsV2"@,
    ensures
        s3_attributes(operation, S3Input::ListObjects { bucket, prefix, max_keys }).contains(
            text_attr("aws.s3.bucket"@, text_or_empty(bucket)),
        ),
        prefix matches Some(p) ==> s3_attributes(
            operation,
            S3Input::ListObjects { bucket, prefix, max_keys },
        ).contains(text_attr("aws.s3.prefix"@, p@)),
        has_key(s3_attributes(operation, S3Input::ListObjects { bucket, prefix, max_keys }), "aws.s3.prefix"@)
            <==> prefix is Some,
        max_keys matches Some(m) ==> s3_attributes(
            operation,
            S3Input::ListObjects { bucket, prefix, max_keys },
        ).contains(int_attr("aws.s3.max_keys"@, m as i64)),
        has_key(s3_attributes(operation, S3Input::ListObjects { bucket, prefix, max_keys }), "aws.s3.max_keys"@)
            <==> max_keys is Some,
{
    broadcast use group_attribute_membership;
    lemma_s3_names_distinct();
}

/// A copy names its bucket, key and copy source, each the input's value or
/// the empty text where the input has none.
pub proof fn lemma_s3_copy_gives_its_fields(
    bucket: Option<String>,
    key: Option<String>,
    copy_source: Option<String>,
)
    ensures
        s3_attributes("CopyObject"@, S3Input::CopyObject { bucket, key, copy_source }).len() == 3,
        s3_attributes("CopyObject"@, S3Input::CopyObject { bucket, key, copy_source }).contains(
            text_attr("aws.s3.bucket"@, text_or_empty(bucket)),
        ),
        s3_attributes("CopyObject"@, S3Input::CopyObject { bucket, key, copy_source }).contains(
            text_attr("aws.s3.key"@, text_or_empty(key)),
        ),
        s3_attributes("CopyObject"@, S3Input::CopyObject { bucket, key, copy_source }).contains(
            text_attr("aws.s3.copy_source"@, text_or_empty(copy_source)),
        ),
{
    broadcast use group_attribute_membership;
    lemma_s3_names_distinct();
}

/// A step of a multipart upload names its bucket and key; it names the copy
/// source, the upload id and the part number each exactly where the input
/// has it, with that value.
pub proof fn lemma_s3_multipart_gives_its_fields(
    operation: Seq<char>,
    bucket: Option<String>,
    key: Option<String>,
    copy_source: Option<String>,
    upload_id: Option<String>,
    part_number: Option<i32>,
)
    requires
        operation == "CreateMultipartUpload"@ || operation == "UploadPart"@ || operation
            == "UploadPartCopy"@ || operation == "CompleteMultipartUpload"@ || operation
            == "AbortMultipartUpload"@,
    ensures
        s3_attributes(
            operation,
            S3Input::MultipartUpload { bucket, key, copy_source, upload_id, part_number },
        ).contains(text_attr("aws.s3.bucket"@, text_or_empty(bucket))),
        s3_attributes(
            operation,
            S3Input::MultipartUpload { bucket, key, copy_source, upload_id, part_number },
        ).contains(text_attr("aws.s3.key"@, text_or_empty(key))),
        copy_source matches Some(c) ==> s3_attributes(
            operation,
            S3Input::MultipartUpload { bucket, key, copy_source, upload_id, part_number },
        ).contains(text_attr("aws.s3.copy_source"@, c@)),
        has_key(
            s3_attributes(
                operation,
                S3Input::MultipartUpload { bucket, key, copy_source, upload_id, part_number },
            ),
            "aws.s3.copy_source"@,
        ) <==> copy_source is Some,
        upload_id matches Some(u) ==> s3_attributes(
            operation,
            S3Input::MultipartUpload { bucket, key, copy_source, upload_id, part_number },
        ).contains(text_attr("aws.s3.upload_id"@, u@)),
        has_key(
            s3_attributes(
                operation,
                S3Input::MultipartUpload { bucket, key, copy_source, upload_id, part_number },
            ),
            "aws.s3.upload_id"@,
        ) <==> upload_id is Some,
        part_number matches Some(n) ==> s3_attributes(
            operation,
            S3Input::MultipartUpload { bucket, key, copy_source, upload_id, part_number },
        ).contains(int_attr("aws.s3.part_number"@, n as i64)),
        has_key(
            s3_attributes(
                operation,
                S3Input::MultipartUpload { bucket, key, copy_source, upload_id, part_number },
            ),
            "aws.s3.part_number"@,
        ) <==> part_number is Some,
{
    broadcast use group_attribute_membership;
    lemma_s3_names_distinct();
}

/// For an operation that the S3 builder does not read, it gives nothing,
/// whatever the input.
pub proof fn lemma_s3_unknown_operation_gives_nothing(operation: Seq<char>, input: S3Input)
    requires
        !(operation == "GetObject"@ || operation == "PutObject"@ || operation == "DeleteObject"@
            || operation == "HeadObject"@ || operation == "ListObjects"@ || operation
            == "ListObjectsV2"@ || operation == "CopyObject"@ || operation
            == "CreateMultipartUpload"@ || operation == "UploadPart"@ || operation
            == "UploadPartCopy"@ || operation == "CompleteMultipartUpload"@ || operation
            == "AbortMultipartUpload"@),
    ensures
        s3_attributes(operation, input) == Seq::<AttributeView>::empty(),
{
}


// ---------------------------------------------------------------------------
// DynamoDB
// ---------------------------------------------------------------------------

/// GetItem names the table, the input's or the empty text; it names
/// consistent reads and the projection each exactly where the input has it,
/// with that value.
pub proof fn lemma_dynamodb_get_item_gives_its_fields(
    table_name: Option<String>,
    consistent_read: Option<bool>,
    projection_expression: Option<String>,
)
    ensures
        ({
            let r = dynamodb_attributes(
                "GetItem"@,
                DynamoDbInput::GetItem { table_name, consistent_read, projection_expression },
            );
            &&& r.contains(text_attr("aws.dynamodb.table_names"@, text_or_empty(table_name)))
            &&& consistent_read matches Some(c) ==> r.contains(
                bool_attr("aws.dynamodb.consistent_read"@, c),
            )
            &&& has_key(r, "aws.dynamodb.consistent_read"@) <==> consistent_read is Some
            &&& projection_expression matches Some(p) ==> r.contains(
                text_attr("aws.dynamodb.projection"@, p@),
            )
            &&& has_key(r, "aws.dynamodb.projection"@) <==> projection_expression is Some
        }),
{
    broadcast use group_attribute_membership;
    lemma_dynamodb_names_distinct();
}

/// PutItem names the database system and the table, the input's or the
/// empty text, and nothing else.
pub proof fn lemma_dynamodb_put_item_gives_its_table(table_name: Option<String>)
    ensures
        ({
            let r = dynamodb_attributes("PutItem"@, DynamoDbInput::PutItem { table_name });
            &&& r.len() == 2
            &&& r.contains(text_attr("aws.dynamodb.table_names"@, text_or_empty(table_name)))
            &&& table_name matches Some(t) ==> r.contains(
                text_attr("aws.dynamodb.table_names"@, t@),
            )
        }),
{
    broadcast use group_attribute_membership;
    lemma_dynamodb_names_distinct();
}

/// Query names the table, the input's or the empty text; it names the index,
/// consistent reads, the projection, the limit and the scan direction each
/// exactly where the input has it, with that value.
pub proof fn lemma_dynamodb_query_gives_its_fields(
    table_name: Option<String>,
    index_name: Option<String>,
    consistent_read: Option<bool>,
    projection_expression: Option<String>,
    limit: Option<i32>,
    scan_index_forward: Option<bool>,
)
    ensures
        ({
            let r = dynamodb_attributes(
                "Query"@,
                DynamoDbInput::Query {
                    table_name,
                    index_name,
                    consistent_read,
                    projection_expression,
                    limit,
                    scan_index_forward,
                },
            );
            &&& r.contains(text_attr("aws.dynamodb.table_names"@, text_or_empty(table_name)))
            &&& index_name matches Some(i) ==> r.contains(text_attr("aws.dynamodb.index_name"@, i@))
            &&& has_key(r, "aws.dynamodb.index_name"@) <==> index_name is Some
            &&& consistent_read matches Some(c) ==> r.contains(
                bool_attr("aws.dynamodb.consistent_read"@, c),
            )
            &&& has_key(r, "aws.dynamodb.consistent_read"@) <==> consistent_read is Some
            &&& projection_expression matches Some(p) ==> r.contains(
                text_attr("aws.dynamodb.projection"@, p@),
            )
            &&& has_key(r, "aws.dynamodb.projection"@) <==> projection_expression is Some
            &&& limit matches Some(l) ==> r.contains(int_attr("aws.dynamodb.limit"@, l as i64))
            &&& has_key(r, "aws.dynamodb.limit"@) <==> limit is Some
            &&& scan_index_forward matches Some(f) ==> r.contains(
                bool_attr("aws.dynamodb.scan_forward"@, f),
            )
            &&& has_key(r, "aws.dynamodb.scan_forward"@) <==> scan_index_forward is Some
        }),
{
    broadcast use group_attribute_membership;
    lemma_dynamodb_names_distinct();
}

/// Scan names the table, the input's or the empty text; it names the index,
/// consistent reads, the projection and the limit each exactly where the
/// input has it, with that value, and never a scan direction.
pub proof fn lemma_dynamodb_scan_gives_its_fields(
    table_name: Option<String>,
    index_name: Option<String>,
    consistent_read: Option<bool>,
    projection_expression: Option<String>,
    limit: Option<i32>,
)
    ensures
        ({
            let r = dynamodb_attributes(
                "Scan"@,
                DynamoDbInput::Scan {
                    table_name,
                    index_name,
                    consistent_read,
                    projection_expression,
                    limit,
                },
            );
            &&& r.contains(text_attr("aws.dynamodb.table_names"@, text_or_empty(table_name)))
            &&& index_name matches Some(i) ==> r.contains(text_attr("aws.dynamodb.index_name"@, i@))
            &&& has_key(r, "aws.dynamodb.index_name"@) <==> index_name is Some
            &&& consistent_read matches Some(c) ==> r.contains(
                bool_attr("aws.dynamodb.consistent_read"@, c),
            )
            &&& has_key(r, "aws.dynamodb.consistent_read"@) <==> consistent_read is Some
            &&& projection_expression matches Some(p) ==> r.contains(
                text_attr("aws.dynamodb.projection"@, p@),
            )
            &&& has_key(r, "aws.dynamodb.projection"@) <==> projection_expression is Some
            &&& limit matches Some(l) ==> r.contains(int_attr("aws.dynamodb.limit"@, l as i64))
            &&& has_key(r, "aws.dynamodb.limit"@) <==> limit is Some
            &&& !has_key(r, "aws.dynamodb.scan_forward"@)
        }),
{
    broadcast use group_attribute_membership;
    lemma_dynamodb_names_distinct();
}

// ---------------------------------------------------------------------------
// SQS
// ---------------------------------------------------------------------------

/// The attributes that every SQS operation the builder reads gives about its
/// queue: the messaging system, the operation type, the server address (the
/// URL, or the empty text), and the queue's name (the last `/`-separated
/// piece of the URL) exactly where the URL is present.
pub open spec fn names_sqs_queue(
    r: Seq<AttributeView>,
    operation_type: Seq<char>,
    queue_url: Option<String>,
) -> bool {
    &&& r.contains(text_attr("messaging.system"@, "aws_sqs"@))
    &&& r.contains(text_attr("messaging.operation.type"@, operation_type))
    &&& r.contains(text_attr("server.address"@, text_or_empty(queue_url)))
    &&& queue_url matches Some(u) ==> r.contains(
        text_attr("messaging.destination.name"@, after_last(u@, '/')),
    )
    &&& has_key(r, "messaging.destination.name"@) <==> queue_url is Some
}

/// SendMessage names its queue, with operation type "send".
pub proof fn lemma_sqs_send_message_names_queue(queue_url: Option<String>)
    ensures
        names_sqs_queue(
            sqs_attributes("SendMessage"@, SqsInput::SendMessage { queue_url }),
            "send"@,
            queue_url,
        ),
{
    broadcast use group_attribute_membership;
    lemma_sqs_names_distinct();
}

/// SendMessageBatch names its queue, with operation type "send", and the
/// number of its entries.
pub proof fn lemma_sqs_send_message_batch_names_queue(queue_url: Option<String>, entry_count: usize)
    ensures
        names_sqs_queue(
            sqs_attributes("SendMessageBatch"@, SqsInput::SendMessageBatch { queue_url, entry_count }),
            "send"@,
            queue_url,
        ),
        sqs_attributes(
            "SendMessageBatch"@,
            SqsInput::SendMessageBatch { queue_url, entry_count },
        ).contains(int_attr("messaging.batch.message_count"@, entry_count as i64)),
{
    broadcast use group_attribute_membership;
    lemma_sqs_names_distinct();
}

/// ReceiveMessage names its queue, with operation type "receive", and the
/// maximum number of messages exactly where the input has one.
pub proof fn lemma_sqs_receive_message_names_queue(
    queue_url: Option<String>,
    max_number_of_messages: Option<i32>,
)
    ensures
        ({
            let r = sqs_attributes(
                "ReceiveMessage"@,
                SqsInput::ReceiveMessage { queue_url, max_number_of_messages },
            );
            &&& names_sqs_queue(r, "receive"@, queue_url)
            &&& max_number_of_messages matches Some(m) ==> r.contains(
                int_attr("aws.sqs.max_messages"@, m as i64),
            )
            &&& has_key(r, "aws.sqs.max_messages"@) <==> max_number_of_messages is Some
        }),
{
    broadcast use group_attribute_membership;
    lemma_sqs_names_distinct();
}

/// DeleteMessage names its queue, with operation type "delete".
pub proof fn lemma_sqs_delete_message_names_queue(queue_url: Option<String>)
    ensures
        names_sqs_queue(
            sqs_attributes("DeleteMessage"@, SqsInput::DeleteMessage { queue_url }),
            "delete"@,
            queue_url,
        ),
{
    broadcast use group_attribute_membership;
    lemma_sqs_names_distinct();
}

/// DeleteMessageBatch names its queue, with operation type "delete", and the
/// number of its entries.
pub proof fn lemma_sqs_delete_message_batch_names_queue(queue_url: Option<String>, entry_count: usize)
    ensures
        names_sqs_queue(
            sqs_attributes(
                "DeleteMessageBatch"@,
                SqsInput::DeleteMessageBatch { queue_url, entry_count },
            ),
            "delete"@,
            queue_url,
        ),
        sqs_attributes(
            "DeleteMessageBatch"@,
            SqsInput::DeleteMessageBatch { queue_url, entry_count },
        ).contains(int_attr("messaging.batch.message_count"@, entry_count as i64)),
{
    broadcast use group_attribute_membership;
    lemma_sqs_names_distinct();
}

// ---------------------------------------------------------------------------
// SNS
// ---------------------------------------------------------------------------

/// Publish is a "send" named "publish"; it names the topic (the last
/// `:`-separated piece of its ARN) where the topic ARN is present, and the
/// target likewise where the target ARN is present, each whether or not the
/// other is; it names a destination exactly where one of them is present, and
/// counts the message attributes exactly where the input has them.
pub proof fn lemma_sns_publish_gives_its_fields(
    topic_arn: Option<String>,
    target_arn: Option<String>,
    message_attribute_count: Option<usize>,
)
    ensures
        ({
            let r = sns_attributes(
                "Publish"@,
                SnsInput::Publish { topic_arn, target_arn, message_attribute_count },
            );
            &&& r.contains(text_attr("messaging.system"@, "aws_sns"@))
            &&& r.contains(text_attr("messaging.operation.type"@, "send"@))
            &&& r.contains(text_attr("messaging.operation.name"@, "publish"@))
            &&& topic_arn matches Some(t) ==> r.contains(
                text_attr("messaging.destination.name"@, after_last(t@, ':')),
            )
            &&& target_arn matches Some(t) ==> r.contains(
                text_attr("messaging.destination.name"@, after_last(t@, ':')),
            )
            &&& has_key(r, "messaging.destination.name"@) <==> (topic_arn is Some
                || target_arn is Some)
            &&& message_attribute_count matches Some(n) ==> r.contains(
                int_attr("aws.sns.message_attribute_count"@, n as i64),
            )
            &&& has_key(r, "aws.sns.message_attribute_count"@) <==> message_attribute_count is Some
        }),
{
    broadcast use group_attribute_membership;
    lemma_sns_names_distinct();
}

/// PublishBatch is a "send" named "publish_batch"; it counts its entries,
/// and names the topic exactly where the topic ARN is present.
pub proof fn lemma_sns_publish_batch_gives_its_fields(topic_arn: Option<String>, entry_count: usize)
    ensures
        ({
            let r = sns_attributes("PublishBatch"@, SnsInput::PublishBatch { topic_arn, entry_count });
            &&& r.contains(text_attr("messaging.system"@, "aws_sns"@))
            &&& r.contains(text_attr("messaging.operation.type"@, "send"@))
            &&& r.contains(text_attr("messaging.operation.name"@, "publish_batch"@))
            &&& r.contains(int_attr("messaging.batch.message_count"@, entry_count as i64))
            &&& topic_arn matches Some(t) ==> r.contains(
                text_attr("messaging.destination.name"@, after_last(t@, ':')),
            )
            &&& has_key(r, "messaging.destination.name"@) <==> topic_arn is Some
        }),
{
    broadcast use group_attribute_membership;
    lemma_sns_names_distinct();
}

// ---------------------------------------------------------------------------
// Lambda
// ---------------------------------------------------------------------------

/// Invoke names the function, the input's or the empty text; it names the
/// invocation type and the qualifier each exactly where the input has it.
pub proof fn lemma_lambda_invoke_gives_its_fields(
    function_name: Option<String>,
    invocation_type: Option<String>,
    qualifier: Option<String>,
)
    ensures
        ({
            let r = lambda_attributes(
                "Invoke"@,
                LambdaInput::Invoke { function_name, invocation_type, qualifier },
            );
            &&& r.contains(text_attr("aws.lambda.function_name"@, text_or_empty(function_name)))
            &&& invocation_type matches Some(t) ==> r.contains(
                text_attr("aws.lambda.invocation_type"@, t@),
            )
            &&& has_key(r, "aws.lambda.invocation_type"@) <==> invocation_type is Some
            &&& qualifier matches Some(q) ==> r.contains(text_attr("aws.lambda.qualifier"@, q@))
            &&& has_key(r, "aws.lambda.qualifier"@) <==> qualifier is Some
        }),
{
    broadcast use group_attribute_membership;
    lemma_lambda_names_distinct();
}

/// For an operation other than Invoke, the Lambda builder gives nothing.
pub proof fn lemma_lambda_unknown_operation_gives_nothing(operation: Seq<char>, input: LambdaInput)
    requires
        operation != "Invoke"@,
    ensures
        lambda_attributes(operation, input) == Seq::<AttributeView>::empty(),
{
}

// ---------------------------------------------------------------------------
// Inputs of another kind
// ---------------------------------------------------------------------------

/// The S3 builder gives nothing where the input is not of the kind that the
/// operation reads.
pub proof fn lemma_s3_other_input_kind_gives_nothing(operation: Seq<char>, input: S3Input)
    ensures
        (operation == "GetObject"@ || operation == "PutObject"@ || operation == "DeleteObject"@
            || operation == "HeadObject"@) && !(input is Object) ==> s3_attributes(operation, input)
            == Seq::<AttributeView>::empty(),
        (operation == "ListObjects"@ || operation == "ListObjectsV2"@) && !(input is ListObjects)
            ==> s3_attributes(operation, input) == Seq::<AttributeView>::empty(),
        operation == "CopyObject"@ && !(input is CopyObject) ==> s3_attributes(operation, input)
            == Seq::<AttributeView>::empty(),
        (operation == "CreateMultipartUpload"@ || operation == "UploadPart"@ || operation
            == "UploadPartCopy"@ || operation == "CompleteMultipartUpload"@ || operation
            == "AbortMultipartUpload"@) && !(input is MultipartUpload) ==> s3_attributes(
            operation,
            input,
        ) == Seq::<AttributeView>::empty(),
{
    lemma_s3_names_distinct();
}

/// The DynamoDB builder gives only the database system where the input is not
/// of the kind that the operation reads.
pub proof fn lemma_dynamodb_other_input_kind_gives_only_system(
    operation: Seq<char>,
    input: DynamoDbInput,
)
    ensures
        ((operation == "GetItem"@ && !(input is GetItem)) || (operation == "PutItem"@ && !(
        input is PutItem)) || (operation == "Query"@ && !(input is Query)) || (operation
            == "Scan"@ && !(input is Scan))) ==> dynamodb_attributes(operation, input) == seq![
            text_attr("db.system"@, "aws_dynamodb"@),
        ],
{
    lemma_dynamodb_names_distinct();
    assert(seq![text_attr("db.system"@, "aws_dynamodb"@)] + Seq::<AttributeView>::empty() =~= seq![
        text_attr("db.system"@, "aws_dynamodb"@),
    ]);
}

/// The SQS builder gives only the messaging system where the input is not of
/// the kind that the operation reads.
pub proof fn lemma_sqs_other_input_kind_gives_only_system(operation: Seq<char>, input: SqsInput)
    ensures
        ((operation == "SendMessage"@ && !(input is SendMessage)) || (operation
            == "SendMessageBatch"@ && !(input is SendMessageBatch)) || (operation
            == "ReceiveMessage"@ && !(input is ReceiveMessage)) || (operation == "DeleteMessage"@
            && !(input is DeleteMessage)) || (operation == "DeleteMessageBatch"@ && !(
        input is DeleteMessageBatch))) ==> sqs_attributes(operation, input) == seq![
            text_attr("messaging.system"@, "aws_sqs"@),
        ],
{
    lemma_sqs_names_distinct();
    assert(seq![text_attr("messaging.system"@, "aws_sqs"@)] + Seq::<AttributeView>::empty() =~= seq![
        text_attr("messaging.system"@, "aws_sqs"@),
    ]);
}

/// The SNS builder gives only the messaging system where the input is not of
/// the kind that the operation reads.
pub proof fn lemma_sns_other_input_kind_gives_only_system(operation: Seq<char>, input: SnsInput)
    ensures
        ((operation == "Publish"@ && !(input is Publish)) || (operation == "PublishBatch"@ && !(
        input is PublishBatch))) ==> sns_attributes(operation, input) == seq![
            text_attr("messaging.system"@, "aws_sns"@),
        ],
{
    lemma_sns_names_distinct();
    assert(seq![text_attr("messaging.system"@, "aws_sns"@)] + Seq::<AttributeView>::empty() =~= seq![
        text_attr("messaging.system"@, "aws_sns"@),
    ]);
}

} // verus!
