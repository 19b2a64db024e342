//! AWS S3 backend: the error taxonomy of its adapter, the handle types its
//! responses are normalized into, and the request planning for each
//! contract operation.
//!
//! The asynchronous SDK calls themselves are made outside the library; they
//! are planned here from plain values, and their responses are normalized
//! here from plain values.

use vstd::prelude::*;

use crate::range::{range_header, range_header_view};
use crate::{opt_str_view, ClientBucket, ClientError, ClientObject};
use aws_sdk_s3::config::http::HttpResponse;
use aws_sdk_s3::error::SdkError;
use aws_sdk_s3::operation::copy_object::CopyObjectError;
use aws_sdk_s3::operation::create_bucket::CreateBucketError;
use aws_sdk_s3::operation::delete_bucket::DeleteBucketError;
use aws_sdk_s3::operation::delete_object::DeleteObjectError;
use aws_sdk_s3::operation::get_bucket_location::GetBucketLocationError;
use aws_sdk_s3::operation::get_object::GetObjectError;
use aws_sdk_s3::operation::list_buckets::ListBucketsError;
use aws_sdk_s3::operation::list_objects::ListObjectsError;
use aws_sdk_s3::operation::put_object::PutObjectError;

verus! {

/// The body type of an SDK HTTP response.
#[verifier::external_type_specification]
#[verifier::external_body]
pub struct ExSdkBody(aws_smithy_types::body::SdkBody);

/// The SDK's HTTP response type.
#[verifier::external_type_specification]
#[verifier::external_body]
#[verifier::reject_recursive_types(B)]
pub struct ExResponse<B>(aws_smithy_runtime_api::http::Response<B>);

/// The SDK's operation failure type: a service error of the operation's own
/// error type, or a failure to build, dispatch or receive the request.
#[verifier::external_type_specification]
#[verifier::external_body]
#[verifier::reject_recursive_types(E)]
#[verifier::reject_recursive_types(R)]
pub struct ExSdkError<E, R>(aws_smithy_runtime_api::client::result::SdkError<E, R>);

/// The service error type of S3's GetObject operation.
#[verifier::external_type_specification]
#[verifier::external_body]
pub struct ExGetObjectError(GetObjectError);

/// The service error type of S3's DeleteBucket operation.
#[verifier::external_type_specification]
#[verifier::external_body]
pub struct ExDeleteBucketError(DeleteBucketError);

/// The service error type of S3's DeleteObject operation.
#[verifier::external_type_specification]
#[verifier::external_body]
pub struct ExDeleteObjectError(DeleteObjectError);

/// The service error type of S3's CopyObject operation.
#[verifier::external_type_specification]
#[verifier::external_body]
pub struct ExCopyObjectError(CopyObjectError);

/// The service error type of S3's GetBucketLocation operation.
#[verifier::external_type_specification]
#[verifier::external_body]
pub struct ExGetBucketLocationError(GetBucketLocationError);

/// The service error type of S3's CreateBucket operation.
#[verifier::external_type_specification]
#[verifier::external_body]
pub struct ExCreateBucketError(CreateBucketError);

/// The service error type of S3's PutObject operation.
#[verifier::external_type_specification]
#[verifier::external_body]
pub struct ExPutObjectError(PutObjectError);

/// The service error type of S3's ListBuckets operation.
#[verifier::external_type_specification]
#[verifier::external_body]
pub struct ExListBucketsError(ListBucketsError);

/// The service error type of S3's ListObjects operation.
#[verifier::external_type_specification]
#[verifier::external_body]
pub struct ExListObjectsError(ListObjectsError);

/// The failure classes the AWS S3 adapter can report: one per S3 operation
/// the adapter calls, each carrying that operation's own service error.
#[allow(clippy::enum_variant_names)]
pub enum AWSError {
    GetObjErr(GetObjectError),
    DelBucErr(DeleteBucketError),
    DelObjErr(DeleteObjectError),
    CopObjErr(CopyObjectError),
    GetLocErr(GetBucketLocationError),
    CreObjErr(CreateBucketError),
    PutObjErr(PutObjectError),
    LstBucErr(ListBucketsError),
    LstObjErr(ListObjectsError),
}

/// The service error that `SdkError::into_service_error` extracts
/// from a GetObject failure; it depends on the failure value alone.
pub uninterp spec fn get_object_service_error_of(
    value: SdkError<GetObjectError, HttpResponse>,
) -> GetObjectError;

/// Relies on `SdkError::into_service_error`: a service error yields the
/// operation's own error value; a dispatch or response failure is folded
/// into that type's catch-all case. The result depends on the failure
/// value alone, and is exactly the named one.
#[verifier::external_body]
fn get_object_service_error(value: SdkError<GetObjectError, HttpResponse>) -> (r: GetObjectError)
    ensures
        r == get_object_service_error_of(value),
{
    value.into_service_error()
}

/// The service error extracted from a DeleteBucket failure, as for
/// GetObject.
pub uninterp spec fn delete_bucket_service_error_of(
    value: SdkError<DeleteBucketError, HttpResponse>,
) -> DeleteBucketError;

/// Relies on `SdkError::into_service_error`, as for GetObject.
#[verifier::external_body]
fn delete_bucket_service_error(value: SdkError<DeleteBucketError, HttpResponse>) -> (r: DeleteBucketError)
    ensures
        r == delete_bucket_service_error_of(value),
{
    value.into_service_error()
}

/// The service error extracted from a DeleteObject failure, as for
/// GetObject.
pub uninterp spec fn delete_object_service_error_of(
    value: SdkError<DeleteObjectError, HttpResponse>,
) -> DeleteObjectError;

/// Relies on `SdkError::into_service_error`, as for GetObject.
#[verifier::external_body]
fn delete_object_service_error(value: SdkError<DeleteObjectError, HttpResponse>) -> (r: DeleteObjectError)
    ensures
        r == delete_object_service_error_of(value),
{
    value.into_service_error()
}

/// The service error extracted from a CopyObject failure, as for
/// GetObject.
pub uninterp spec fn copy_object_service_error_of(
    value: SdkError<CopyObjectError, HttpResponse>,
) -> CopyObjectError;

/// Relies on `SdkError::into_service_error`, as for GetObject.
#[verifier::external_body]
fn copy_object_service_error(value: SdkError<CopyObjectError, HttpResponse>) -> (r: CopyObjectError)
    ensures
        r == copy_object_service_error_of(value),
{
    value.into_service_error()
}

/// The service error extracted from a GetBucketLocation failure, as for
/// GetObject.
pub uninterp spec fn get_bucket_location_service_error_of(
    value: SdkError<GetBucketLocationError, HttpResponse>,
) -> GetBucketLocationError;

/// Relies on `SdkError::into_service_error`, as for GetObject.
#[verifier::external_body]
fn get_bucket_location_service_error(value: SdkError<GetBucketLocationError, HttpResponse>) -> (r: GetBucketLocationError)
    ensures
        r == get_bucket_location_service_error_of(value),
{
    value.into_service_error()
}

/// The service error extracted from a CreateBucket failure, as for
/// GetObject.
pub uninterp spec fn create_bucket_service_error_of(
    value: SdkError<CreateBucketError, HttpResponse>,
) -> CreateBucketError;

/// Relies on `SdkError::into_service_error`, as for GetObject.
#[verifier::external_body]
fn create_bucket_service_error(value: SdkError<CreateBucketError, HttpResponse>) -> (r: CreateBucketError)
    ensures
        r == create_bucket_service_error_of(value),
{
    value.into_service_error()
}

/// The service error extracted from a PutObject failure, as for
/// GetObject.
pub uninterp spec fn put_object_service_error_of(
    value: SdkError<PutObjectError, HttpResponse>,
) -> PutObjectError;

/// Relies on `SdkError::into_service_error`, as for GetObject.
#[verifier::external_body]
fn put_object_service_error(value: SdkError<PutObjectError, HttpResponse>) -> (r: PutObjectError)
    ensures
        r == put_object_service_error_of(value),
{
    value.into_service_error()
}

/// The service error extracted from a ListBuckets failure, as for
/// GetObject.
pub uninterp spec fn list_buckets_service_error_of(
    value: SdkError<ListBucketsError, HttpResponse>,
) -> ListBucketsError;

/// Relies on `SdkError::into_service_error`, as for GetObject.
#[verifier::external_body]
fn list_buckets_service_error(value: SdkError<ListBucketsError, HttpResponse>) -> (r: ListBucketsError)
    ensures
        r == list_buckets_service_error_of(value),
{
    value.into_service_error()
}

/// The service error extracted from a ListObjects failure, as for
/// GetObject.
pub uninterp spec fn list_objects_service_error_of(
    value: SdkError<ListObjectsError, HttpResponse>,
) -> ListObjectsError;

/// Relies on `SdkError::into_service_error`, as for GetObject.
#[verifier::external_body]
fn list_objects_service_error(value: SdkError<ListObjectsError, HttpResponse>) -> (r: ListObjectsError)
    ensures
        r == list_objects_service_error_of(value),
{
    value.into_service_error()
}

/// Wraps an already-extracted GetObject service error into the union:
/// exactly the AWS variant, exactly the GetObject class, carrying exactly
/// this error — nothing is swallowed.
pub fn client_error_from_get_object(e: GetObjectError) -> (r: ClientError)
    ensures
        r == ClientError::AWSClient(AWSError::GetObjErr(e)),
{
    ClientError::AWSClient(AWSError::GetObjErr(e))
}

/// Wraps an already-extracted DeleteBucket service error, as for
/// GetObject: exact class, exact payload.
pub fn client_error_from_delete_bucket(e: DeleteBucketError) -> (r: ClientError)
    ensures
        r == ClientError::AWSClient(AWSError::DelBucErr(e)),
{
    ClientError::AWSClient(AWSError::DelBucErr(e))
}

/// Wraps an already-extracted DeleteObject service error, as for
/// GetObject: exact class, exact payload.
pub fn client_error_from_delete_object(e: DeleteObjectError) -> (r: ClientError)
    ensures
        r == ClientError::AWSClient(AWSError::DelObjErr(e)),
{
    ClientError::AWSClient(AWSError::DelObjErr(e))
}

/// Wraps an already-extracted CopyObject service error, as for
/// GetObject: exact class, exact payload.
pub fn client_error_from_copy_object(e: CopyObjectError) -> (r: ClientError)
    ensures
        r == ClientError::AWSClient(AWSError::CopObjErr(e)),
{
    ClientError::AWSClient(AWSError::CopObjErr(e))
}

/// Wraps an already-extracted GetBucketLocation service error, as for
/// GetObject: exact class, exact payload.
pub fn client_error_from_get_bucket_location(e: GetBucketLocationError) -> (r: ClientError)
    ensures
        r == ClientError::AWSClient(AWSError::GetLocErr(e)),
{
    ClientError::AWSClient(AWSError::GetLocErr(e))
}

/// Wraps an already-extracted CreateBucket service error, as for
/// GetObject: exact class, exact payload.
pub fn client_error_from_create_bucket(e: CreateBucketError) -> (r: ClientError)
    ensures
        r == ClientError::AWSClient(AWSError::CreObjErr(e)),
{
    ClientError::AWSClient(AWSError::CreObjErr(e))
}

/// Wraps an already-extracted PutObject service error, as for GetObject:
/// exact class, exact payload.
pub fn client_error_from_put_object(e: PutObjectError) -> (r: ClientError)
    ensures
        r == ClientError::AWSClient(AWSError::PutObjErr(e)),
{
    ClientError::AWSClient(AWSError::PutObjErr(e))
}

/// Wraps an already-extracted ListBuckets service error, as for
/// GetObject: exact class, exact payload.
pub fn client_error_from_list_buckets(e: ListBucketsError) -> (r: ClientError)
    ensures
        r == ClientError::AWSClient(AWSError::LstBucErr(e)),
{
    ClientError::AWSClient(AWSError::LstBucErr(e))
}

/// Wraps an already-extracted ListObjects service error, as for
/// GetObject: exact class, exact payload.
pub fn client_error_from_list_objects(e: ListObjectsError) -> (r: ClientError)
    ensures
        r == ClientError::AWSClient(AWSError::LstObjErr(e)),
{
    ClientError::AWSClient(AWSError::LstObjErr(e))
}

impl ClientError {
    /// Normalizes a GetObject failure: always the AWS variant, always
    /// the GetObject class, carrying exactly the service error extracted
    /// from this failure — nothing is swallowed.
    pub fn from_get_object_error(value: SdkError<GetObjectError, HttpResponse>) -> (r: ClientError)
        ensures
            r == ClientError::AWSClient(AWSError::GetObjErr(get_object_service_error_of(value))),
    {
        client_error_from_get_object(get_object_service_error(value))
    }

    /// Normalizes a DeleteBucket failure: always the AWS variant, always
    /// the DeleteBucket class, carrying exactly the service error extracted
    /// from this failure — nothing is swallowed.
    pub fn from_delete_bucket_error(value: SdkError<DeleteBucketError, HttpResponse>) -> (r: ClientError)
        ensures
            r == ClientError::AWSClient(AWSError::DelBucErr(delete_bucket_service_error_of(value))),
    {
        client_error_from_delete_bucket(delete_bucket_service_error(value))
    }

    /// Normalizes a DeleteObject failure: always the AWS variant, always
    /// the DeleteObject class, carrying exactly the service error extracted
    /// from this failure — nothing is swallowed.
    pub fn from_delete_object_error(value: SdkError<DeleteObjectError, HttpResponse>) -> (r: ClientError)
        ensures
            r == ClientError::AWSClient(AWSError::DelObjErr(delete_object_service_error_of(value))),
    {
        client_error_from_delete_object(delete_object_service_error(value))
    }

    /// Normalizes a CopyObject failure: always the AWS variant, always
    /// the CopyObject class, carrying exactly the service error extracted
    /// from this failure — nothing is swallowed.
    pub fn from_copy_object_error(value: SdkError<CopyObjectError, HttpResponse>) -> (r: ClientError)
        ensures
            r == ClientError::AWSClient(AWSError::CopObjErr(copy_object_service_error_of(value))),
    {
        client_error_from_copy_object(copy_object_service_error(value))
    }

    /// Normalizes a GetBucketLocation failure: always the AWS variant, always
    /// the GetBucketLocation class, carrying exactly the service error extracted
    /// from this failure — nothing is swallowed.
    pub fn from_get_bucket_location_error(value: SdkError<GetBucketLocationError, HttpResponse>) -> (r: ClientError)
        ensures
            r == ClientError::AWSClient(AWSError::GetLocErr(get_bucket_location_service_error_of(value))),
    {
        client_error_from_get_bucket_location(get_bucket_location_service_error(value))
    }

    /// Normalizes a CreateBucket failure: always the AWS variant, always
    /// the CreateBucket class, carrying exactly the service error extracted
    /// from this failure — nothing is swallowed.
    pub fn from_create_bucket_error(value: SdkError<CreateBucketError, HttpResponse>) -> (r: ClientError)
        ensures
            r == ClientError::AWSClient(AWSError::CreObjErr(create_bucket_service_error_of(value))),
    {
        client_error_from_create_bucket(create_bucket_service_error(value))
    }

    /// Normalizes a PutObject failure: always the AWS variant, always
    /// the PutObject class, carrying exactly the service error extracted
    /// from this failure — nothing is swallowed.
    pub fn from_put_object_error(value: SdkError<PutObjectError, HttpResponse>) -> (r: ClientError)
        ensures
            r == ClientError::AWSClient(AWSError::PutObjErr(put_object_service_error_of(value))),
    {
        client_error_from_put_object(put_object_service_error(value))
    }

    /// Normalizes a ListBuckets failure: always the AWS variant, always
    /// the ListBuckets class, carrying exactly the service error extracted
    /// from this failure — nothing is swallowed.
    pub fn from_list_buckets_error(value: SdkError<ListBucketsError, HttpResponse>) -> (r: ClientError)
        ensures
            r == ClientError::AWSClient(AWSError::LstBucErr(list_buckets_service_error_of(value))),
    {
        client_error_from_list_buckets(list_buckets_service_error(value))
    }

    /// Normalizes a ListObjects failure: always the AWS variant, always
    /// the ListObjects class, carrying exactly the service error extracted
    /// from this failure — nothing is swallowed.
    pub fn from_list_objects_error(value: SdkError<ListObjectsError, HttpResponse>) -> (r: ClientError)
        ensures
            r == ClientError::AWSClient(AWSError::LstObjErr(list_objects_service_error_of(value))),
    {
        client_error_from_list_objects(list_objects_service_error(value))
    }
}

/// A bucket handle of this backend: S3 reports no separate identifier, so
/// the name stands as the id too.
pub struct AWSBucket {
    pub bucket_name: String,
    pub location: Option<String>,
}

impl ClientBucket for AWSBucket {
    open spec fn spec_id(&self) -> Seq<char> {
        self.bucket_name@
    }

    open spec fn spec_name(&self) -> Seq<char> {
        self.bucket_name@
    }

    open spec fn spec_location(&self) -> Option<Seq<char>> {
        opt_str_view(self.location)
    }

    fn id(&self) -> (r: String) {
        self.bucket_name.clone()
    }

    fn name(&self) -> (r: String) {
        self.bucket_name.clone()
    }

    fn location(&self) -> (r: Option<String>) {
        match &self.location {
            Some(l) => Some(l.clone()),
            None => None,
        }
    }
}

/// An object handle of the GetObject path: the caller-supplied key is
/// its name, the entity tag its id.
pub struct AWSObject {
    pub bucket: String,
    pub key: String,
    pub e_tag: String,
    pub content_length: u64,
    pub content_type: Option<String>,
}

impl ClientObject for AWSObject {
    open spec fn spec_size(&self) -> u64 {
        self.content_length
    }

    open spec fn size_known(&self) -> bool {
        true
    }

    open spec fn spec_bucket_name(&self) -> Seq<char> {
        self.bucket@
    }

    open spec fn spec_id(&self) -> Seq<char> {
        self.e_tag@
    }

    open spec fn spec_name(&self) -> Seq<char> {
        self.key@
    }

    open spec fn spec_content_type(&self) -> Option<Seq<char>> {
        opt_str_view(self.content_type)
    }

    fn size(&self) -> (r: u64) {
        self.content_length
    }

    fn bucket_name(&self) -> (r: String) {
        self.bucket.clone()
    }

    fn id(&self) -> (r: String) {
        self.e_tag.clone()
    }

    fn name(&self) -> (r: String) {
        self.key.clone()
    }

    fn content_type(&self) -> (r: Option<String>) {
        match &self.content_type {
            Some(c) => Some(c.clone()),
            None => None,
        }
    }
}

/// An object handle of the PutObject path: the write response echoes no
/// content type, and it reports a size only when the service sent one —
/// after an ordinary upload it does not, and callers must not rely on
/// the size then.
pub struct AWSObjectPut {
    pub bucket: String,
    pub key: String,
    pub e_tag: String,
    pub size: Option<u64>,
}

impl ClientObject for AWSObjectPut {
    open spec fn spec_size(&self) -> u64 {
        self.size.unwrap()
    }

    open spec fn size_known(&self) -> bool {
        self.size is Some
    }

    open spec fn spec_bucket_name(&self) -> Seq<char> {
        self.bucket@
    }

    open spec fn spec_id(&self) -> Seq<char> {
        self.e_tag@
    }

    open spec fn spec_name(&self) -> Seq<char> {
        self.key@
    }

    open spec fn spec_content_type(&self) -> Option<Seq<char>> {
        None
    }

    fn size(&self) -> (r: u64) {
        self.size.unwrap()
    }

    fn bucket_name(&self) -> (r: String) {
        self.bucket.clone()
    }

    fn id(&self) -> (r: String) {
        self.e_tag.clone()
    }

    fn name(&self) -> (r: String) {
        self.key.clone()
    }

    fn content_type(&self) -> (r: Option<String>) {
        None
    }
}

/// What the CopyObject response itself yields before the follow-up get:
/// only the new entity tag, when the service reports one.
pub struct AWSObjectCopy {
    pub bucket: String,
    pub e_tag: Option<String>,
}

/// An object handle of the ListObjects path: a listing entry carries the
/// caller-supplied key and the entity tag, but no content type.
pub struct AWSObjectListed {
    pub bucket: String,
    pub key: String,
    pub e_tag: String,
    pub size: u64,
}

impl ClientObject for AWSObjectListed {
    open spec fn spec_size(&self) -> u64 {
        self.size
    }

    open spec fn size_known(&self) -> bool {
        true
    }

    open spec fn spec_bucket_name(&self) -> Seq<char> {
        self.bucket@
    }

    open spec fn spec_id(&self) -> Seq<char> {
        self.e_tag@
    }

    open spec fn spec_name(&self) -> Seq<char> {
        self.key@
    }

    open spec fn spec_content_type(&self) -> Option<Seq<char>> {
        None
    }

    fn size(&self) -> (r: u64) {
        self.size
    }

    fn bucket_name(&self) -> (r: String) {
        self.bucket.clone()
    }

    fn id(&self) -> (r: String) {
        self.e_tag.clone()
    }

    fn name(&self) -> (r: String) {
        self.key.clone()
    }

    fn content_type(&self) -> (r: Option<String>) {
        None
    }
}

/// A planned GetObject request: where each argument goes, and the range
/// header exactly as it is sent.
pub struct AwsDownloadPlan {
    pub bucket: String,
    pub key: String,
    pub range: Option<String>,
}

/// Plans a download: the optional bounds become the one range header S3
/// understands, or no header at all for a full-object request.
pub fn download_object_plan(
    bucket: String,
    object_id: String,
    starting: Option<u64>,
    ending: Option<u64>,
) -> (r: AwsDownloadPlan)
    ensures
        r.bucket@ == bucket@,
        r.key@ == object_id@,
        opt_str_view(r.range) == range_header_view(starting, ending),
{
    AwsDownloadPlan { bucket, key: object_id, range: range_header(starting, ending) }
}

/// A planned single-object request: PutObject, GetObject and
/// DeleteObject all address the asked bucket and the asked key, and
/// nothing else of the arguments.
pub struct AwsObjectPlan {
    pub bucket: String,
    pub key: String,
}

/// Plans an upload: the payload goes to this bucket under this key.
pub fn upload_object_plan(bucket: String, object_id: String) -> (r: AwsObjectPlan)
    ensures
        r.bucket@ == bucket@,
        r.key@ == object_id@,
{
    AwsObjectPlan { bucket, key: object_id }
}

/// Plans a point lookup of an object by its key.
pub fn get_object_plan(bucket: String, object_id: String) -> (r: AwsObjectPlan)
    ensures
        r.bucket@ == bucket@,
        r.key@ == object_id@,
{
    AwsObjectPlan { bucket, key: object_id }
}

/// Plans an object deletion.
pub fn remove_object_plan(bucket: String, object_id: String) -> (r: AwsObjectPlan)
    ensures
        r.bucket@ == bucket@,
        r.key@ == object_id@,
{
    AwsObjectPlan { bucket, key: object_id }
}

/// A planned CopyObject request: S3 takes the shared bucket, the
/// destination key, and the source key as the copy source.
pub struct AwsCopyPlan {
    pub bucket: String,
    pub key: String,
    pub copy_source: String,
}

/// Plans a copy. S3 only supports copying within one bucket: a
/// cross-bucket request is rejected right here, before any network call,
/// as `None` — distinguishable from every network failure, which arrives
/// as an error value instead.
pub fn copy_object_plan(
    src_bucket: String,
    src_object: String,
    dest_bucket: &String,
    dest_object: String,
) -> (r: Option<AwsCopyPlan>)
    ensures
        (r is Some <==> src_bucket@ == dest_bucket@),
        (r matches Some(p) ==> p.bucket@ == src_bucket@ && p.key@ == dest_object@
            && p.copy_source@ == src_object@),
{
    if src_bucket == *dest_bucket {
        Some(AwsCopyPlan { bucket: src_bucket, key: dest_object, copy_source: src_object })
    } else {
        None
    }
}

/// S3 provides no URL for uploading objects: the result is the empty
/// string, never an error — callers must treat it as "unsupported", not
/// as a URL.
pub fn url_upload_object(bucket: String, object_id: String) -> (r: String)
    ensures
        r@ == Seq::<char>::empty(),
{
    String::new()
}

/// The characters `https://`.
pub open spec fn https_prefix() -> Seq<char> {
    seq!['h', 't', 't', 'p', 's', ':', '/', '/']
}

/// The characters `.s3.amazonaws.com/`, between bucket and key in a
/// public S3 URL.
pub open spec fn s3_host_infix() -> Seq<char> {
    seq!['.', 's', '3', '.', 'a', 'm', 'a', 'z', 'o', 'n', 'a', 'w', 's', '.', 'c', 'o', 'm', '/']
}

/// The conventional public URL of an object, since S3 needs no signing
/// primitive for it: `https://<bucket>.s3.amazonaws.com/<key>`.
pub fn url_download_object(bucket: String, object_id: String) -> (r: String)
    ensures
        r@ == https_prefix() + bucket@ + s3_host_infix() + object_id@,
{
    proof {
        reveal_strlit("https://");
        reveal_strlit(".s3.amazonaws.com/");
        assert("https://"@ =~= https_prefix());
        assert(".s3.amazonaws.com/"@ =~= s3_host_infix());
    }
    let mut url = "https://".to_owned();
    url.append(bucket.as_str());
    url.append(".s3.amazonaws.com/");
    url.append(object_id.as_str());
    proof {
        assert(url@ =~= https_prefix() + bucket@ + s3_host_infix() + object_id@);
    }
    url
}

/// Normalizes a CreateBucket response: the handle keeps the requested
/// name and whatever location the service reported.
pub fn bucket_from_create(bucket_name: String, location: Option<String>) -> (r: AWSBucket)
    ensures
        r.bucket_name == bucket_name,
        r.location == location,
{
    AWSBucket { bucket_name, location }
}

/// Normalizes a GetBucketLocation response: the handle carries the
/// constraint the service reported, and no location when the service
/// omitted it — the location is optional in the data model.
pub fn bucket_from_location(bucket_name: String, location_constraint: Option<String>) -> (r:
    AWSBucket)
    ensures
        r.bucket_name == bucket_name,
        r.location == location_constraint,
{
    AWSBucket { bucket_name, location: location_constraint }
}

/// The fields this backend reads of one listed bucket entry.
pub struct AwsBucketEntry {
    pub name: Option<String>,
    pub bucket_region: Option<String>,
}

/// Normalizes a ListBuckets page, entry by entry: every entry must be
/// named (the service never lists a nameless bucket).
pub fn buckets_from_list(entries: Vec<AwsBucketEntry>) -> (r: Vec<AWSBucket>)
    requires
        forall|i: int| 0 <= i < entries@.len() ==> (#[trigger] entries@[i].name) is Some,
    ensures
        r@.len() == entries@.len(),
        forall|i: int|
            #![trigger r@[i]]
            0 <= i < r@.len() ==> Some(r@[i].bucket_name) == entries@[i].name && r@[i].location
                == entries@[i].bucket_region,
{
    let mut out: Vec<AWSBucket> = Vec::new();
    let mut idx: usize = 0;
    while idx < entries.len()
        invariant
            forall|i: int| 0 <= i < entries@.len() ==> (#[trigger] entries@[i].name) is Some,
            idx <= entries@.len(),
            out@.len() == idx,
            forall|i: int|
                #![trigger out@[i]]
                0 <= i < idx ==> Some(out@[i].bucket_name) == entries@[i].name && out@[i].location
                    == entries@[i].bucket_region,
        decreases entries@.len() - idx,
    {
        let ghost prev_out = out@;
        let name = clone_opt_string(&entries[idx].name);
        let region = clone_opt_string(&entries[idx].bucket_region);
        let b = AWSBucket { bucket_name: name.unwrap(), location: region };
        let ghost gb = b;
        out.push(b);
        proof {
            assert forall|i: int| #![trigger out@[i]]
                0 <= i < idx + 1 implies Some(out@[i].bucket_name) == entries@[i].name
                && out@[i].location == entries@[i].bucket_region by {
                if i < idx {
                    assert(out@[i] == prev_out[i]);
                } else {
                    assert(out@[i] == gb);
                }
            }
        }
        idx += 1;
    }
    out
}

/// Normalizes a GetObject response for the key that was asked for: S3
/// must have reported the entity tag and a non-negative content length,
/// which the read path does. The handle's name is the key, its id the
/// entity tag; a non-empty key gives a non-empty name.
pub fn object_from_get(
    bucket: String,
    key: String,
    e_tag: Option<String>,
    content_length: Option<i64>,
    content_type: Option<String>,
) -> (r: AWSObject)
    requires
        e_tag is Some,
        content_length is Some,
        content_length.unwrap() >= 0,
    ensures
        r.bucket == bucket,
        r.key == key,
        Some(r.e_tag) == e_tag,
        r.content_length == content_length.unwrap(),
        r.content_type == content_type,
        (key@.len() > 0 ==> r.spec_name().len() > 0),
        (e_tag.unwrap()@.len() > 0 ==> r.spec_id().len() > 0),
{
    AWSObject {
        bucket,
        key,
        e_tag: e_tag.unwrap(),
        content_length: content_length.unwrap() as u64,
        content_type,
    }
}

/// Normalizes a PutObject response for the key that was uploaded: S3
/// must have reported the entity tag; the size is kept only if the
/// service sent one, which after an ordinary upload it does not — the
/// handle then knows no size, and callers must not ask it for one.
pub fn object_from_put(bucket: String, key: String, e_tag: Option<String>, size: Option<i64>) -> (r:
    AWSObjectPut)
    requires
        e_tag is Some,
        (size matches Some(s) ==> s >= 0),
    ensures
        r.bucket == bucket,
        r.key == key,
        Some(r.e_tag) == e_tag,
        (size matches Some(s) ==> r.size == Some(s as u64)),
        (size is None ==> r.size is None),
        (key@.len() > 0 ==> r.spec_name().len() > 0),
{
    let size_u64: Option<u64> = match size {
        Some(s) => Some(s as u64),
        None => None,
    };
    AWSObjectPut { bucket, key, e_tag: e_tag.unwrap(), size: size_u64 }
}

/// The fields this backend reads of one listed object entry.
pub struct AwsObjectEntry {
    pub key: Option<String>,
    pub e_tag: Option<String>,
    pub size: Option<i64>,
}

/// Normalizes a ListObjects page, entry by entry: every entry must carry
/// a key, an entity tag and a non-negative size.
pub fn objects_from_list(bucket: &String, entries: Vec<AwsObjectEntry>) -> (r: Vec<
    AWSObjectListed,
>)
    requires
        forall|i: int|
            #![trigger entries@[i]]
            0 <= i < entries@.len() ==> entries@[i].key is Some && entries@[i].e_tag is Some
                && entries@[i].size is Some && entries@[i].size.unwrap() >= 0,
    ensures
        r@.len() == entries@.len(),
        forall|i: int|
            #![trigger r@[i]]
            0 <= i < r@.len() ==> r@[i].bucket@ == bucket@ && Some(r@[i].key) == entries@[i].key
                && Some(r@[i].e_tag) == entries@[i].e_tag && r@[i].size == entries@[i].size.unwrap(),
{
    let mut out: Vec<AWSObjectListed> = Vec::new();
    let mut idx: usize = 0;
    while idx < entries.len()
        invariant
            forall|i: int|
                #![trigger entries@[i]]
                0 <= i < entries@.len() ==> entries@[i].key is Some && entries@[i].e_tag is Some
                    && entries@[i].size is Some && entries@[i].size.unwrap() >= 0,
            idx <= entries@.len(),
            out@.len() == idx,
            forall|i: int|
                #![trigger out@[i]]
                0 <= i < idx ==> out@[i].bucket@ == bucket@ && Some(out@[i].key) == entries@[i].key
                    && Some(out@[i].e_tag) == entries@[i].e_tag && out@[i].size
                    == entries@[i].size.unwrap(),
        decreases entries@.len() - idx,
    {
        let ghost prev_out = out@;
        let key = clone_opt_string(&entries[idx].key);
        let e_tag = clone_opt_string(&entries[idx].e_tag);
        let size: i64 = match &entries[idx].size {
            Some(s) => *s,
            None => 0,
        };
        let o = AWSObjectListed {
            bucket: bucket.clone(),
            key: key.unwrap(),
            e_tag: e_tag.unwrap(),
            size: size as u64,
        };
        let ghost go = o;
        out.push(o);
        proof {
            assert forall|i: int| #![trigger out@[i]]
                0 <= i < idx + 1 implies out@[i].bucket@ == bucket@ && Some(out@[i].key)
                == entries@[i].key && Some(out@[i].e_tag) == entries@[i].e_tag && out@[i].size
                == entries@[i].size.unwrap() by {
                if i < idx {
                    assert(out@[i] == prev_out[i]);
                } else {
                    assert(out@[i] == go);
                }
            }
        }
        idx += 1;
    }
    out
}

fn clone_opt_string(o: &Option<String>) -> (r: Option<String>)
    ensures
        r == *o,
{
    match o {
        Some(s) => Some(s.clone()),
        None => None,
    }
}

} // verus!
