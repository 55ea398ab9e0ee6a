//! Request planning, pagination and name resolution for a Paperless-ngx
//! server, written so that every decision is a verified function of plain
//! values. The crate never touches the network: it describes the requests to
//! send and digests the responses that come back.

pub mod address;
pub mod client;
pub mod collect;
pub mod commands;
pub mod config;
pub mod error;
pub mod names;
pub mod output;
pub mod resolve;
pub mod text;
pub mod types;

pub use address::Address;
pub use client::{Client, ClientBuilder, Request};
pub use collect::{Collector, Progress};
pub use error::{ApiError, Failure};
pub use names::{FetchingCorrespondents, FetchingDocumentTypes, FetchingTags, Step};
pub use resolve::{resolve_document, resolve_documents, NameResolver, ResolvedDocument};
pub use types::{
    Correspondent, Document, DocumentType, DocumentVersion, PaginatedResponse, Tag, UiSettings,
    UiSettingsUser, UiSettingsVersion,
};
