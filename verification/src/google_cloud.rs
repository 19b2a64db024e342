//! Google Cloud Storage backend: the error taxonomy of its adapter, the
//! handle types its responses are normalized into, and the request planning
//! for each contract operation.
//!
//! The asynchronous SDK calls themselves are made outside the library; they
//! are planned here from plain values, and their responses are normalized
//! here from plain values.

use vstd::prelude::*;

use crate::{list_page_size, opt_str_view, ClientBucket, ClientError, ClientObject};

verus! {

/// Google's service error payload type.
#[verifier::external_type_specification]
#[verifier::external_body]
pub struct ExErrorResponseItem(google_cloud_storage::http::error::ErrorResponseItem);

/// Google's HTTP-layer error type.
#[verifier::external_type_specification]
#[verifier::external_body]
pub struct ExHttpError(google_cloud_storage::http::Error);

/// Google's signed-URL issuance error type.
#[verifier::external_type_specification]
#[verifier::external_body]
pub struct ExSignedURLError(google_cloud_storage::sign::SignedURLError);

/// The failure classes the Google Cloud Storage adapter can report: a
/// well-formed service error response, a structural or transport failure
/// with no parseable service error, or a signed-URL issuance failure. The
/// first two shapes are kept apart so a caller can retry transport failures
/// without retrying validation failures.
pub enum GoogleCloudError {
    HttpError(google_cloud_storage::http::Error),
    GoogleCloudStorageError(Vec<google_cloud_storage::http::error::ErrorResponseItem>),
    SignedURLError(google_cloud_storage::sign::SignedURLError),
}

/// Whether a Google HTTP-layer failure is the service's one well-formed
/// error response (`Error::Response`); it depends on the failure value
/// alone.
pub uninterp spec fn gcs_error_is_response(value: google_cloud_storage::http::Error) -> bool;

/// The service error items a response-shaped failure carries; they
/// depend on the failure value alone.
pub uninterp spec fn gcs_response_items_of(value: google_cloud_storage::http::Error) -> Vec<
    google_cloud_storage::http::error::ErrorResponseItem,
>;

/// Relies on `google_cloud_storage::http::Error`: its `Response` variant is
/// the one well-formed service error response and carries the service's
/// error items; every other variant is a transport or structural failure.
/// Splits the two shapes apart, moving the value: a response failure
/// yields exactly its named items, anything else comes back unchanged.
#[verifier::external_body]
fn split_http_error(value: google_cloud_storage::http::Error) -> (r: Result<
    Vec<google_cloud_storage::http::error::ErrorResponseItem>,
    google_cloud_storage::http::Error,
>)
    ensures
        (r is Ok <==> gcs_error_is_response(value)),
        (r matches Ok(items) ==> items == gcs_response_items_of(value)),
        (r matches Err(e) ==> e == value),
{
    match value {
        google_cloud_storage::http::Error::Response(e) => Ok(e.errors),
        other => Err(other),
    }
}

/// Wraps an already-split HTTP failure: a service error response becomes
/// `GoogleCloudStorageError` with exactly its items, anything else becomes
/// `HttpError` with exactly the failure it was handed.
pub fn gc_error_from_parts(
    parts: Result<
        Vec<google_cloud_storage::http::error::ErrorResponseItem>,
        google_cloud_storage::http::Error,
    >,
) -> (r: GoogleCloudError)
    ensures
        (parts matches Ok(items) ==> r == GoogleCloudError::GoogleCloudStorageError(items)),
        (parts matches Err(e) ==> r == GoogleCloudError::HttpError(e)),
{
    match parts {
        Ok(items) => GoogleCloudError::GoogleCloudStorageError(items),
        Err(e) => GoogleCloudError::HttpError(e),
    }
}

impl GoogleCloudError {
    /// Normalizes an HTTP-layer failure, preserving the service-versus-
    /// transport distinction: a response-shaped failure becomes the
    /// service class with exactly its items, anything else becomes the
    /// transport class with exactly the failure itself — never a
    /// signed-URL failure, and nothing is swallowed.
    pub fn from_http(value: google_cloud_storage::http::Error) -> (r: GoogleCloudError)
        ensures
            (gcs_error_is_response(value) ==> r == GoogleCloudError::GoogleCloudStorageError(
                gcs_response_items_of(value),
            )),
            (!gcs_error_is_response(value) ==> r == GoogleCloudError::HttpError(value)),
    {
        gc_error_from_parts(split_http_error(value))
    }
}

impl ClientError {
    /// Normalizes an HTTP-layer failure of the Google backend into the
    /// error union: always the Google variant, wrapping the service class
    /// with exactly its items for a response-shaped failure, and the
    /// transport class with exactly the failure itself for anything else.
    pub fn from_gcs_http(value: google_cloud_storage::http::Error) -> (r: ClientError)
        ensures
            (gcs_error_is_response(value) ==> r == ClientError::GoogleCloudClient(
                GoogleCloudError::GoogleCloudStorageError(gcs_response_items_of(value)),
            )),
            (!gcs_error_is_response(value) ==> r == ClientError::GoogleCloudClient(
                GoogleCloudError::HttpError(value),
            )),
    {
        ClientError::GoogleCloudClient(GoogleCloudError::from_http(value))
    }

    /// Wraps a signed-URL issuance failure of the Google backend into the
    /// error union: always the Google variant, always its signed-URL class,
    /// carrying exactly the failure that was raised.
    pub fn from_gcs_signed_url(value: google_cloud_storage::sign::SignedURLError) -> (r:
        ClientError)
        ensures
            r == ClientError::GoogleCloudClient(GoogleCloudError::SignedURLError(value)),
    {
        ClientError::GoogleCloudClient(GoogleCloudError::SignedURLError(value))
    }
}

/// An object handle of this backend: the service reports a distinct id,
/// the caller-supplied name, the owning bucket, the size, and sometimes a
/// content type.
pub struct GoogleCloudObject {
    pub size: u64,
    pub bucket: String,
    pub id: String,
    pub name: String,
    pub content_type: Option<String>,
}

impl ClientObject for GoogleCloudObject {
    open spec fn spec_size(&self) -> u64 {
        self.size
    }

    open spec fn size_known(&self) -> bool {
        true
    }

    open spec fn spec_bucket_name(&self) -> Seq<char> {
        self.bucket@
    }

    open spec fn spec_id(&self) -> Seq<char> {
        self.id@
    }

    open spec fn spec_name(&self) -> Seq<char> {
        self.name@
    }

    open spec fn spec_content_type(&self) -> Option<Seq<char>> {
        opt_str_view(self.content_type)
    }

    fn size(&self) -> (r: u64) {
        self.size
    }

    fn bucket_name(&self) -> (r: String) {
        self.bucket.clone()
    }

    fn id(&self) -> (r: String) {
        self.id.clone()
    }

    fn name(&self) -> (r: String) {
        self.name.clone()
    }

    fn content_type(&self) -> (r: Option<String>) {
        match &self.content_type {
            Some(c) => Some(c.clone()),
            None => None,
        }
    }
}

/// Normalizes one object of a service response. The service reports the
/// size as a signed integer; a stored object's byte length is never
/// negative. A non-empty reported name or id stays non-empty.
pub fn object_from_parts(
    size: i64,
    bucket: String,
    id: String,
    name: String,
    content_type: Option<String>,
) -> (r: GoogleCloudObject)
    requires
        size >= 0,
    ensures
        r.size == size,
        r.bucket == bucket,
        r.id == id,
        r.name == name,
        r.content_type == content_type,
        (name@.len() > 0 ==> r.spec_name().len() > 0),
        (id@.len() > 0 ==> r.spec_id().len() > 0),
{
    GoogleCloudObject { size: size as u64, bucket, id, name, content_type }
}

/// A bucket handle of this backend: the service always reports an id, a
/// name and a location.
pub struct GoogleCloudBucket {
    pub id: String,
    pub name: String,
    pub location: String,
}

impl ClientBucket for GoogleCloudBucket {
    open spec fn spec_id(&self) -> Seq<char> {
        self.id@
    }

    open spec fn spec_name(&self) -> Seq<char> {
        self.name@
    }

    open spec fn spec_location(&self) -> Option<Seq<char>> {
        Some(self.location@)
    }

    fn id(&self) -> (r: String) {
        self.id.clone()
    }

    fn name(&self) -> (r: String) {
        self.name.clone()
    }

    fn location(&self) -> (r: Option<String>) {
        Some(self.location.clone())
    }
}

/// A planned download request: bucket and object name go into the
/// request; the bounds are handed to the SDK's range argument, which
/// sends them as the shared `bytes=` header encoding.
pub struct GcDownloadPlan {
    pub bucket: String,
    pub object: String,
    pub starting: Option<u64>,
    pub ending: Option<u64>,
}

/// Plans a download.
pub fn download_object_plan(
    bucket: String,
    object: String,
    starting: Option<u64>,
    ending: Option<u64>,
) -> (r: GcDownloadPlan)
    ensures
        r.bucket@ == bucket@,
        r.object@ == object@,
        r.starting == starting,
        r.ending == ending,
{
    GcDownloadPlan { bucket, object, starting, ending }
}

/// A planned upload request: this service takes the object's name in the
/// media description, not in the request itself, which only names the
/// bucket.
pub struct GcUploadPlan {
    pub bucket: String,
    pub media_name: String,
}

/// Plans an upload.
pub fn upload_object_plan(bucket: String, object: String) -> (r: GcUploadPlan)
    ensures
        r.bucket@ == bucket@,
        r.media_name@ == object@,
{
    GcUploadPlan { bucket, media_name: object }
}

/// A planned single-object request: GetObject and DeleteObject address
/// the asked bucket and the asked object name, and nothing else of the
/// arguments.
pub struct GcObjectPlan {
    pub bucket: String,
    pub object: String,
}

/// Plans a point lookup of an object by its name.
pub fn get_object_plan(bucket: String, object: String) -> (r: GcObjectPlan)
    ensures
        r.bucket@ == bucket@,
        r.object@ == object@,
{
    GcObjectPlan { bucket, object }
}

/// Plans an object deletion.
pub fn remove_object_plan(bucket: String, object: String) -> (r: GcObjectPlan)
    ensures
        r.bucket@ == bucket@,
        r.object@ == object@,
{
    GcObjectPlan { bucket, object }
}

/// A planned copy request. This service copies across buckets, so all
/// four parts are forwarded; nothing is rejected up front.
pub struct GcCopyPlan {
    pub destination_bucket: String,
    pub destination_object: String,
    pub source_bucket: String,
    pub source_object: String,
}

/// Plans a copy: every request is planned, cross-bucket ones included.
pub fn copy_object_plan(
    src_bucket: String,
    src_object: String,
    dest_bucket: String,
    dest_object: String,
) -> (r: GcCopyPlan)
    ensures
        r.source_bucket@ == src_bucket@,
        r.source_object@ == src_object@,
        r.destination_bucket@ == dest_bucket@,
        r.destination_object@ == dest_object@,
{
    GcCopyPlan {
        destination_bucket: dest_bucket,
        destination_object: dest_object,
        source_bucket: src_bucket,
        source_object: src_object,
    }
}

/// A planned signed-URL issuance: `method_put` decides whether the URL
/// grants an upload (PUT) or a download (the service's default method).
pub struct GcSignedUrlPlan {
    pub bucket: String,
    pub object: String,
    pub method_put: bool,
}

/// Plans an upload URL: issued with the PUT method.
pub fn url_upload_object_plan(bucket: String, object: String) -> (r: GcSignedUrlPlan)
    ensures
        r.bucket@ == bucket@,
        r.object@ == object@,
        r.method_put,
{
    GcSignedUrlPlan { bucket, object, method_put: true }
}

/// Plans a download URL: issued with the service's default method.
pub fn url_download_object_plan(bucket: String, object: String) -> (r: GcSignedUrlPlan)
    ensures
        r.bucket@ == bucket@,
        r.object@ == object@,
        !r.method_put,
{
    GcSignedUrlPlan { bucket, object, method_put: false }
}

/// A planned bucket listing: this service scopes the call by project, so
/// the client's configured project id is routed into the request.
pub struct GcListBucketsPlan {
    pub project: String,
    pub max_results: Option<i32>,
}

/// Plans a bucket listing; the bound must fit the provider's integer
/// type. It bounds the page, not the total count.
pub fn list_buckets_plan(project_id: String, max_results: Option<u32>) -> (r: GcListBucketsPlan)
    requires
        (max_results matches Some(n) ==> n <= i32::MAX as u32),
    ensures
        r.project@ == project_id@,
        (max_results matches Some(n) ==> r.max_results == Some(n as i32)),
        (max_results is None ==> r.max_results is None),
{
    let max: Option<i32> = match max_results {
        Some(n) => Some(list_page_size(n)),
        None => None,
    };
    GcListBucketsPlan { project: project_id, max_results: max }
}

/// A planned object listing.
pub struct GcListObjectsPlan {
    pub bucket: String,
    pub max_results: Option<i32>,
}

/// Plans an object listing; the bound must fit the provider's integer
/// type. It bounds the page, not the total count.
pub fn list_objects_plan(bucket: String, max_results: Option<u32>) -> (r: GcListObjectsPlan)
    requires
        (max_results matches Some(n) ==> n <= i32::MAX as u32),
    ensures
        r.bucket@ == bucket@,
        (max_results matches Some(n) ==> r.max_results == Some(n as i32)),
        (max_results is None ==> r.max_results is None),
{
    let max: Option<i32> = match max_results {
        Some(n) => Some(list_page_size(n)),
        None => None,
    };
    GcListObjectsPlan { bucket, max_results: max }
}

} // verus!
