//! The per-backend planning, normalization and error mapping.

use aws_sdk_s3::config::http::HttpResponse;
use aws_sdk_s3::error::SdkError;
use aws_sdk_s3::operation::get_object::GetObjectError;
use aws_sdk_s3::types::error::NoSuchKey;
use aws_smithy_runtime_api::http::StatusCode;
use aws_smithy_types::body::SdkBody;
use google_cloud_storage::http::error::{ErrorResponse, ErrorResponseItem};
use google_cloud_storage::http::Error as GcsHttpError;
use google_cloud_storage::sign::SignedURLError;

use storage_client::aws_s3::{self, AWSError, AwsBucketEntry, AwsObjectEntry};
use storage_client::google_cloud::{self, GoogleCloudError};
use storage_client::range::{apply_range, range_header, u64_to_decimal};
use storage_client::{list_page_size, ClientError, ClientObject};

#[test]
fn decimal_rendering_is_exact() {
    assert_eq!(u64_to_decimal(0), "0".to_string());
    assert_eq!(u64_to_decimal(7), "7".to_string());
    assert_eq!(u64_to_decimal(10), "10".to_string());
    assert_eq!(u64_to_decimal(1234567890), "1234567890".to_string());
    assert_eq!(u64_to_decimal(u64::MAX), "18446744073709551615".to_string());
}

#[test]
fn range_header_encodings() {
    assert_eq!(range_header(Some(10), Some(19)), Some("bytes=10-19".to_string()));
    assert_eq!(range_header(Some(2000), None), Some("bytes=2000-".to_string()));
    assert_eq!(range_header(None, Some(2000)), Some("bytes=-2000".to_string()));
    assert_eq!(range_header(None, None), None);
}

#[test]
fn apply_range_matches_inclusive_semantics() {
    let data: Vec<u8> = (0u8..100).collect();
    let cut = apply_range(&data, Some(10), Some(19)).unwrap();
    assert_eq!(cut.len(), 10);
    assert_eq!(cut, data[10..=19].to_vec());
    assert_eq!(apply_range(&data, None, None).unwrap(), data);
    assert_eq!(apply_range(&data, Some(99), Some(200)).unwrap(), vec![99u8]);
    assert!(apply_range(&data, Some(100), None).is_none());
    assert!(apply_range(&data, Some(19), Some(10)).is_none());
    let empty: Vec<u8> = Vec::new();
    assert_eq!(apply_range(&empty, None, None).unwrap(), empty);
}

#[test]
fn aws_download_plan_carries_exact_header() {
    let plan = aws_s3::download_object_plan("b".to_string(), "k".to_string(), Some(0), Some(499));
    assert_eq!(plan.bucket, "b".to_string());
    assert_eq!(plan.key, "k".to_string());
    assert_eq!(plan.range, Some("bytes=0-499".to_string()));
    let full = aws_s3::download_object_plan("b".to_string(), "k".to_string(), None, None);
    assert_eq!(full.range, None);
}

#[test]
fn aws_cross_bucket_copy_is_rejected_before_any_call() {
    let refused = aws_s3::copy_object_plan(
        "one".to_string(),
        "src-key".to_string(),
        &"two".to_string(),
        "dst-key".to_string(),
    );
    assert!(refused.is_none());
    let planned = aws_s3::copy_object_plan(
        "one".to_string(),
        "src-key".to_string(),
        &"one".to_string(),
        "dst-key".to_string(),
    )
    .unwrap();
    assert_eq!(planned.bucket, "one".to_string());
    assert_eq!(planned.key, "dst-key".to_string());
    assert_eq!(planned.copy_source, "src-key".to_string());
}

#[test]
fn simple_object_plans_route_arguments() {
    let up = aws_s3::upload_object_plan("b".to_string(), "k".to_string());
    assert_eq!((up.bucket.as_str(), up.key.as_str()), ("b", "k"));
    let get = aws_s3::get_object_plan("b".to_string(), "k".to_string());
    assert_eq!((get.bucket.as_str(), get.key.as_str()), ("b", "k"));
    let del = aws_s3::remove_object_plan("b".to_string(), "k".to_string());
    assert_eq!((del.bucket.as_str(), del.key.as_str()), ("b", "k"));
    let g_get = google_cloud::get_object_plan("b".to_string(), "k".to_string());
    assert_eq!((g_get.bucket.as_str(), g_get.object.as_str()), ("b", "k"));
    let g_del = google_cloud::remove_object_plan("b".to_string(), "k".to_string());
    assert_eq!((g_del.bucket.as_str(), g_del.object.as_str()), ("b", "k"));
}

#[test]
fn aws_upload_url_is_the_empty_placeholder() {
    let url = aws_s3::url_upload_object("b".to_string(), "k".to_string());
    assert_eq!(url, "".to_string());
}

#[test]
fn aws_download_url_is_the_public_shape() {
    let url = aws_s3::url_download_object("photos".to_string(), "cat.png".to_string());
    assert_eq!(url, "https://photos.s3.amazonaws.com/cat.png".to_string());
}

#[test]
fn aws_get_object_normalization() {
    let o = aws_s3::object_from_get(
        "b".to_string(),
        "cat.png".to_string(),
        Some("\"etag\"".to_string()),
        Some(42),
        Some("image/png".to_string()),
    );
    assert_eq!(o.bucket_name(), "b".to_string());
    assert_eq!(o.id(), "\"etag\"".to_string());
    assert_eq!(o.name(), "cat.png".to_string());
    assert!(!o.name().is_empty() && !o.id().is_empty());
    assert_eq!(o.size(), 42);
    assert_eq!(o.content_type(), Some("image/png".to_string()));
}

#[test]
fn aws_put_object_normalization() {
    let o = aws_s3::object_from_put(
        "b".to_string(),
        "k".to_string(),
        Some("\"etag\"".to_string()),
        Some(3),
    );
    assert_eq!(o.bucket_name(), "b".to_string());
    assert_eq!(o.id(), "\"etag\"".to_string());
    assert_eq!(o.name(), "k".to_string());
    assert_eq!(o.size, Some(3));
    assert_eq!(o.size(), 3);
    assert_eq!(o.content_type(), None);
}

#[test]
fn aws_put_object_without_reported_size() {
    // An ordinary upload response carries no size: the handle keeps none,
    // and the rest of it is still usable.
    let o = aws_s3::object_from_put(
        "b".to_string(),
        "k".to_string(),
        Some("\"etag\"".to_string()),
        None,
    );
    assert_eq!(o.size, None);
    assert_eq!(o.name(), "k".to_string());
    assert_eq!(o.id(), "\"etag\"".to_string());
}

#[test]
fn aws_bucket_normalization() {
    let created = aws_s3::bucket_from_create("b".to_string(), Some("/b".to_string()));
    assert_eq!(created.bucket_name, "b".to_string());
    assert_eq!(created.location, Some("/b".to_string()));
    let located = aws_s3::bucket_from_location("b".to_string(), Some("eu-west-1".to_string()));
    assert_eq!(located.location, Some("eu-west-1".to_string()));
    let unlocated = aws_s3::bucket_from_location("b".to_string(), None);
    assert_eq!(unlocated.bucket_name, "b".to_string());
    assert_eq!(unlocated.location, None);
}

#[test]
fn omitted_listing_page_is_empty() {
    let absent: Option<Vec<u8>> = None;
    assert_eq!(storage_client::page_or_empty(absent), Vec::<u8>::new());
    let present = Some(vec![1u8, 2u8]);
    assert_eq!(storage_client::page_or_empty(present), vec![1u8, 2u8]);
}

#[test]
fn aws_bucket_listing_normalization() {
    let entries = vec![
        AwsBucketEntry { name: Some("a".to_string()), bucket_region: Some("us-east-1".to_string()) },
        AwsBucketEntry { name: Some("b".to_string()), bucket_region: None },
    ];
    let buckets = aws_s3::buckets_from_list(entries);
    assert_eq!(buckets.len(), 2);
    assert_eq!(buckets[0].bucket_name, "a".to_string());
    assert_eq!(buckets[0].location, Some("us-east-1".to_string()));
    assert_eq!(buckets[1].bucket_name, "b".to_string());
    assert_eq!(buckets[1].location, None);
}

#[test]
fn aws_object_listing_normalization() {
    let entries = vec![AwsObjectEntry {
        key: Some("k".to_string()),
        e_tag: Some("\"e\"".to_string()),
        size: Some(9),
    }];
    let objects = aws_s3::objects_from_list(&"b".to_string(), entries);
    assert_eq!(objects.len(), 1);
    assert_eq!(objects[0].bucket_name(), "b".to_string());
    assert_eq!(objects[0].name(), "k".to_string());
    assert_eq!(objects[0].id(), "\"e\"".to_string());
    assert_eq!(objects[0].size(), 9);
}

fn http_response(status: u16) -> HttpResponse {
    HttpResponse::new(StatusCode::try_from(status).unwrap(), SdkBody::empty())
}

#[test]
fn aws_service_error_maps_to_its_operation_class() {
    let service = GetObjectError::NoSuchKey(NoSuchKey::builder().build());
    let sdk_err: SdkError<GetObjectError, HttpResponse> =
        SdkError::service_error(service, http_response(404));
    let e = ClientError::from_get_object_error(sdk_err);
    match e {
        ClientError::AWSClient(AWSError::GetObjErr(inner)) => {
            assert!(matches!(inner, GetObjectError::NoSuchKey(_)));
        }
        _ => panic!("expected the AWS GetObject class"),
    }
}

#[test]
fn aws_service_error_payload_is_kept() {
    let service = GetObjectError::NoSuchKey(NoSuchKey::builder().build());
    let wrapped = aws_s3::client_error_from_get_object(service);
    match wrapped {
        ClientError::AWSClient(AWSError::GetObjErr(inner)) => {
            assert!(matches!(inner, GetObjectError::NoSuchKey(_)));
        }
        _ => panic!("expected the AWS GetObject class with its payload"),
    }
}

#[test]
fn aws_transport_errors_map_to_each_operation_class() {
    fn boxed() -> Box<dyn std::error::Error + Send + Sync> {
        "timed out".into()
    }
    assert!(matches!(
        ClientError::from_get_object_error(SdkError::timeout_error(boxed())),
        ClientError::AWSClient(AWSError::GetObjErr(_))
    ));
    assert!(matches!(
        ClientError::from_delete_bucket_error(SdkError::timeout_error(boxed())),
        ClientError::AWSClient(AWSError::DelBucErr(_))
    ));
    assert!(matches!(
        ClientError::from_delete_object_error(SdkError::timeout_error(boxed())),
        ClientError::AWSClient(AWSError::DelObjErr(_))
    ));
    assert!(matches!(
        ClientError::from_copy_object_error(SdkError::timeout_error(boxed())),
        ClientError::AWSClient(AWSError::CopObjErr(_))
    ));
    assert!(matches!(
        ClientError::from_get_bucket_location_error(SdkError::timeout_error(boxed())),
        ClientError::AWSClient(AWSError::GetLocErr(_))
    ));
    assert!(matches!(
        ClientError::from_create_bucket_error(SdkError::timeout_error(boxed())),
        ClientError::AWSClient(AWSError::CreObjErr(_))
    ));
    assert!(matches!(
        ClientError::from_put_object_error(SdkError::timeout_error(boxed())),
        ClientError::AWSClient(AWSError::PutObjErr(_))
    ));
    assert!(matches!(
        ClientError::from_list_buckets_error(SdkError::timeout_error(boxed())),
        ClientError::AWSClient(AWSError::LstBucErr(_))
    ));
    assert!(matches!(
        ClientError::from_list_objects_error(SdkError::timeout_error(boxed())),
        ClientError::AWSClient(AWSError::LstObjErr(_))
    ));
}

#[test]
fn gcs_object_normalization() {
    let o = google_cloud::object_from_parts(
        11,
        "b".to_string(),
        "b/k/123".to_string(),
        "k".to_string(),
        Some("text/plain".to_string()),
    );
    assert_eq!(o.size(), 11);
    assert_eq!(o.bucket_name(), "b".to_string());
    assert_eq!(o.id(), "b/k/123".to_string());
    assert_eq!(o.name(), "k".to_string());
    assert_eq!(o.content_type(), Some("text/plain".to_string()));
}

#[test]
fn gcs_plans_route_arguments() {
    let d = google_cloud::download_object_plan("b".to_string(), "k".to_string(), Some(1), None);
    assert_eq!((d.bucket.as_str(), d.object.as_str()), ("b", "k"));
    assert_eq!((d.starting, d.ending), (Some(1), None));

    let u = google_cloud::upload_object_plan("b".to_string(), "k".to_string());
    assert_eq!(u.bucket, "b".to_string());
    assert_eq!(u.media_name, "k".to_string());

    let c = google_cloud::copy_object_plan(
        "sb".to_string(),
        "so".to_string(),
        "db".to_string(),
        "do".to_string(),
    );
    assert_eq!(c.source_bucket, "sb".to_string());
    assert_eq!(c.source_object, "so".to_string());
    assert_eq!(c.destination_bucket, "db".to_string());
    assert_eq!(c.destination_object, "do".to_string());

    let up_url = google_cloud::url_upload_object_plan("b".to_string(), "k".to_string());
    assert!(up_url.method_put);
    let down_url = google_cloud::url_download_object_plan("b".to_string(), "k".to_string());
    assert!(!down_url.method_put);

    let lb = google_cloud::list_buckets_plan("proj".to_string(), Some(7));
    assert_eq!(lb.project, "proj".to_string());
    assert_eq!(lb.max_results, Some(7));
    let lo = google_cloud::list_objects_plan("b".to_string(), None);
    assert_eq!(lo.bucket, "b".to_string());
    assert_eq!(lo.max_results, None);

    assert_eq!(list_page_size(42), 42);
}

#[test]
fn gcs_service_error_keeps_its_items() {
    let response = ErrorResponse {
        code: 404,
        errors: vec![ErrorResponseItem {
            domain: "global".to_string(),
            location: None,
            location_type: None,
            message: "Not Found".to_string(),
            reason: "notFound".to_string(),
        }],
        message: "Not Found".to_string(),
    };
    let e = GoogleCloudError::from_http(GcsHttpError::Response(response));
    match e {
        GoogleCloudError::GoogleCloudStorageError(items) => {
            assert_eq!(items.len(), 1);
            assert_eq!(items[0].reason, "notFound".to_string());
        }
        _ => panic!("expected the service error class"),
    }
}

#[test]
fn gcs_transport_error_keeps_its_shape() {
    let e = GoogleCloudError::from_http(GcsHttpError::InvalidRangeHeader("oops".to_string()));
    assert!(matches!(e, GoogleCloudError::HttpError(_)));
    let wrapped = ClientError::from_gcs_http(GcsHttpError::InvalidRangeHeader("oops".to_string()));
    assert!(matches!(
        wrapped,
        ClientError::GoogleCloudClient(GoogleCloudError::HttpError(_))
    ));
}

#[test]
fn gcs_signed_url_error_maps_to_its_class() {
    let e = ClientError::from_gcs_signed_url(SignedURLError::CertError("bad".to_string()));
    assert!(matches!(
        e,
        ClientError::GoogleCloudClient(GoogleCloudError::SignedURLError(_))
    ));
}
