//! The storage notification records that announce a file to load.

use vstd::prelude::*;

verus! {

#[derive(Debug, Clone)]
pub struct UserId {
    pub principal_id: String,
}

#[derive(Debug, Clone)]
pub struct RequestParameters {
    /// The address the request came from.
    pub source_ip_address: String,
}

#[derive(Debug, Clone)]
pub struct ResponseElements {
    /// The request id that the storage service generated.
    pub x_amz_request_id: String,
    /// The storage host that processed the request.
    pub x_amz_id_2: String,
}

#[derive(Debug, Clone)]
pub struct OwnerIdentity {
    /// The customer id of the bucket owner.
    pub principal_id: String,
}

/// The records of one storage notification.
#[derive(Debug, Clone)]
pub struct S3EventRecords {
    pub records: Vec<S3EventRecord>,
}

/// One storage event.
#[derive(Debug, Clone)]
pub struct S3EventRecord {
    pub event_source: String,
    pub event_version: String,
    pub aws_region: String,
    /// When the storage service finished processing the request.
    pub event_time: String,
    /// The event type, without its service prefix.
    pub event_name: String,
    /// Who caused the event.
    pub user_identity: UserId,
    pub request_parameters: RequestParameters,
    pub response_elements: ResponseElements,
    pub s3: S3,
}

#[derive(Debug, Clone)]
pub struct S3 {
    pub s3_schema_version: String,
    /// The id of the bucket's notification configuration.
    pub configuration_id: String,
    pub bucket: S3Bucket,
    pub object: S3Object,
}

#[derive(Debug, Clone)]
pub struct S3Bucket {
    pub name: String,
    pub owner_identity: OwnerIdentity,
    pub arn: String,
}

#[derive(Debug, Clone)]
pub struct S3Object {
    pub key: String,
    /// Size in bytes.
    pub size: u64,
    pub e_tag: String,
    /// Set when the bucket keeps versions.
    pub version_id: Option<String>,
    /// Orders the events of one object.
    pub sequencer: String,
}

} // verus!
