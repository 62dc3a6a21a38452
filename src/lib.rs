//! A client library for the NaNoWriMo JSON:API service: the catalogue of
//! resource kinds, the wire codecs, the polymorphic resource model, the
//! resolution of side-loaded resources, the classification of responses and
//! the session with its one-shot re-login. Transport is left to the caller.

pub mod text;
pub mod json;
pub mod wire;
pub mod kind;
pub mod enums;
pub mod time;
pub mod codec;
pub mod relation;
pub mod attributes;
pub mod objects;
pub mod envelope;
pub mod error;
pub mod response;
pub mod session;
pub mod request;

pub use envelope::{CollectionResponse, ItemResponse, PostInfo};
pub use error::{Error, ErrorData, NanoError};
pub use kind::{NanoKind, UnknownKind};
pub use objects::{Object, ObjectInfo};
pub use relation::{LinkData, LinkInfo, ObjectRef, RelationInfo, RelationLink};
pub use response::{LoginResponse, StoreItem};
