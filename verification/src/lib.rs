//! Provider-agnostic object-storage client core.
//!
//! The library defines the data model and operation semantics shared by all
//! storage backends, the per-backend request planning and response
//! normalization, and the error taxonomy that every operation reports its
//! failures through. Network transport, authentication, and the asynchronous
//! SDK calls themselves live outside the library; they hand plain values in
//! and take plain values back.

use vstd::prelude::*;

pub mod aws_s3;
pub mod google_cloud;
pub mod memory;
pub mod range;

verus! {

/// The view of an optional string: `None` stays `None`, `Some` is viewed as
/// its character sequence.
pub open spec fn opt_str_view(o: Option<String>) -> Option<Seq<char>> {
    match o {
        Option::Some(s) => Option::Some(s@),
        Option::None => Option::None,
    }
}

/// An object handle returned by a backend: a named, byte-addressable unit of
/// stored content within a bucket. Handles are transient value objects built
/// from a single response; they are never mutated.
pub trait ClientObject: Sized {
    /// Total byte size of the object's content.
    spec fn spec_size(&self) -> u64;

    /// Whether this handle knows its size. On some backends a write
    /// result cannot report one, and callers must not rely on it there.
    spec fn size_known(&self) -> bool;

    /// Name of the bucket the object is in.
    spec fn spec_bucket_name(&self) -> Seq<char>;

    /// Backend-assigned identifier (often an entity tag, often the name).
    spec fn spec_id(&self) -> Seq<char>;

    /// Caller-supplied key of the object within its bucket.
    spec fn spec_name(&self) -> Seq<char>;

    /// MIME type, when the backend reported one.
    spec fn spec_content_type(&self) -> Option<Seq<char>>;

    /// Returns the total byte-size of the object.
    fn size(&self) -> (r: u64)
        requires
            self.size_known(),
        ensures
            r == self.spec_size(),
    ;

    /// Name of the bucket the object is in.
    fn bucket_name(&self) -> (r: String)
        ensures
            r@ == self.spec_bucket_name(),
    ;

    /// ID of the object (often etag; often same as name).
    fn id(&self) -> (r: String)
        ensures
            r@ == self.spec_id(),
    ;

    /// Name of the object (often etag; often same as name).
    fn name(&self) -> (r: String)
        ensures
            r@ == self.spec_name(),
    ;

    /// Object's content type (if available).
    fn content_type(&self) -> (r: Option<String>)
        ensures
            opt_str_view(r) == self.spec_content_type(),
    ;
}

/// A bucket handle returned by a backend: a named top-level container for
/// objects.
pub trait ClientBucket: Sized {
    /// Backend-assigned identifier (often the name itself).
    spec fn spec_id(&self) -> Seq<char>;

    /// Human-chosen bucket name.
    spec fn spec_name(&self) -> Seq<char>;

    /// Region or location, when the backend could report it without an extra
    /// round trip.
    spec fn spec_location(&self) -> Option<Seq<char>>;

    /// ID of the bucket (often etag; often same as name).
    fn id(&self) -> (r: String)
        ensures
            r@ == self.spec_id(),
    ;

    /// Name of the bucket (often etag; often same as name).
    fn name(&self) -> (r: String)
        ensures
            r@ == self.spec_name(),
    ;

    /// Location of the bucket (example: 'us-west1').
    fn location(&self) -> (r: Option<String>)
        ensures
            opt_str_view(r) == self.spec_location(),
    ;
}

/// A wrapper around errors from different clients: exactly one backend
/// variant is populated per error instance, matching which adapter raised it.
pub enum ClientError {
    GoogleCloudClient(crate::google_cloud::GoogleCloudError),
    AWSClient(crate::aws_s3::AWSError),
}

/// A listing page as some providers send it: the whole items field may be
/// omitted when nothing is listed. An absent field is the empty page, not
/// a failure.
pub fn page_or_empty<T>(items: Option<Vec<T>>) -> (r: Vec<T>)
    ensures
        (items matches Some(v) ==> r == v),
        (items is None ==> r@.len() == 0),
{
    match items {
        Some(v) => v,
        None => Vec::new(),
    }
}

/// The page-size argument as the providers' request types take it: both
/// SDKs carry `max_results` as an `i32`, so a meaningful bound must fit
/// the provider's integer type.
pub fn list_page_size(max_results: u32) -> (r: i32)
    requires
        max_results <= i32::MAX as u32,
    ensures
        r == max_results as i32,
{
    max_results as i32
}

/// Result of a storage operation that yields a value.
pub type ReqRes<T> = Result<T, ClientError>;

/// Result of a storage operation that yields nothing on success.
pub type EmptyReqRes = Result<(), ClientError>;

} // verus!
