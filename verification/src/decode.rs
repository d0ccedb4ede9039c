//! The decode boundary: from a version tag and a decoded record to the
//! canonical request.

use vstd::prelude::*;
use crate::error::{RequestError, RequestErrorView};
use crate::request::CallbackRequestType;
use crate::record::{RecordFields, RecordView};
use crate::schema::RequestView;
use crate::v1::SigstoreVerificationInputV1;
use crate::v2::SigstoreVerificationInputV2;
use crate::version::SchemaVersion;

verus! {

/// What a record means under the generation that a version tag names: what
/// that generation makes of it, or that the tag names no generation.
pub open spec fn request_of(tag: u32, variant: Seq<char>, record: RecordView) -> Result<
    RequestView,
    RequestErrorView,
> {
    match SchemaVersion::of_tag(tag) {
        Some(version) => version.decoded(variant, record),
        None => Err(RequestErrorView::UnsupportedVersion { tag }),
    }
}

/// Decodes a record under the generation that the version tag names and
/// converts the request to its canonical form.
///
/// Every input has a result: a tag that names no generation gives
/// `UnsupportedVersion`, a record that is no request of the generation
/// gives `MalformedRequest`, and any other record gives the canonical
/// request of the record's variant with the record's fields.
pub fn decode_request(tag: u32, variant: &str, fields: RecordFields) -> (result: Result<
    CallbackRequestType,
    RequestError,
>)
    ensures
        match request_of(tag, variant@, fields@) {
            Ok(view) => result matches Ok(request) && request@ == view,
            Err(error) => result matches Err(e) && e@ == error,
        },
{
    match SchemaVersion::from_tag(tag) {
        Ok(SchemaVersion::V1) => match SigstoreVerificationInputV1::decode(variant, fields) {
            Ok(request) => Ok(request.into()),
            Err(error) => Err(error),
        },
        Ok(SchemaVersion::V2) => match SigstoreVerificationInputV2::decode(variant, fields) {
            Ok(request) => Ok(CallbackRequestType::from(request)),
            Err(error) => Err(error),
        },
        Err(error) => Err(error),
    }
}

} // verus!
