//! Versioned request schema through which a confined guest asks its host for
//! capabilities it cannot perform itself.
//!
//! A guest and its host are built and deployed apart, so several generations
//! of the schema are in use at once. Each generation is a closed set of
//! request variants ([`SigstoreVerificationInputV1`],
//! [`SigstoreVerificationInputV2`]); all of them convert, without loss, to
//! the one canonical type that the host dispatches on
//! ([`CallbackRequestType`]).
//!
//! Bytes are not read here. A codec turns a payload into a record, a variant
//! name with the fields that came with it ([`RecordFields`]);
//! [`decode_request`] decides whether the record is a request of the
//! generation that a version tag names. The laws that hold of the schema as
//! a whole are proved in [`laws`].

pub mod decode;
pub mod error;
pub mod laws;
pub mod record;
pub mod request;
pub mod schema;
pub mod text;
pub mod v1;
pub mod v2;
pub mod verification;
pub mod version;

pub use decode::decode_request;
pub use error::{Mismatch, RequestError};
pub use request::CallbackRequestType;
pub use record::{RecordFields, Slot};
pub use schema::{FieldName, RequestKind};
pub use v1::SigstoreVerificationInputV1;
pub use v2::SigstoreVerificationInputV2;
pub use version::SchemaVersion;
