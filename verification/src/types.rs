//! The records that the server returns.

use crate::text::{trim, trimmed};
use vstd::prelude::*;
use vstd::string::*;

verus! {

/// A calendar date of the `jiff` crate, carried as an opaque value.
#[verifier::external_type_specification]
#[verifier::external_body]
pub struct ExDate(jiff::civil::Date);

/// An instant of the `jiff` crate, carried as an opaque value.
#[verifier::external_type_specification]
#[verifier::external_body]
pub struct ExTimestamp(jiff::Timestamp);

/// Selects which version of a document to download.
#[derive(Debug, Clone, Copy, PartialEq, Eq)]
pub enum DocumentVersion {
    /// The original uploaded file.
    Original,
    /// The archived (OCR-processed) version.
    Archived,
}

/// One page of a larger ordered collection.
#[derive(Debug, Clone, PartialEq)]
pub struct PaginatedResponse<T> {
    /// Total number of items matching the query, over all pages.
    pub count: u64,
    /// URL of the next page, if any.
    pub next: Option<String>,
    /// URL of the previous page, if any.
    pub previous: Option<String>,
    /// Items on this page.
    pub results: Vec<T>,
}

/// A [`PaginatedResponse`] as a mathematical value.
pub struct PageView<T> {
    pub count: u64,
    pub next: Option<Seq<char>>,
    pub previous: Option<Seq<char>>,
    pub results: Seq<T>,
}

impl<T> View for PaginatedResponse<T> {
    type V = PageView<T>;

    open spec fn view(&self) -> PageView<T> {
        PageView {
            count: self.count,
            next: self.next.deep_view(),
            previous: self.previous.deep_view(),
            results: self.results@,
        }
    }
}

/// A subset of the server's UI settings.
#[derive(Debug, Clone, PartialEq, Eq)]
pub struct UiSettings {
    /// The authenticated user.
    pub user: UiSettingsUser,
    /// The settings object containing the server version.
    pub settings: UiSettingsVersion,
}

/// User object from the UI settings response.
#[derive(Debug, Clone, PartialEq, Eq)]
pub struct UiSettingsUser {
    /// The username.
    pub username: String,
    /// First name, if set.
    pub first_name: Option<String>,
    /// Last name, if set.
    pub last_name: Option<String>,
}

/// Inner settings object from the UI settings response.
#[derive(Debug, Clone, PartialEq, Eq)]
pub struct UiSettingsVersion {
    /// The running server version.
    pub version: String,
}

/// The text of an optional name, empty where there is none.
pub open spec fn text_or_empty(name: Option<Seq<char>>) -> Seq<char> {
    match name {
        Some(text) => text,
        None => Seq::empty(),
    }
}

/// The name a user is shown under: first and last name, each trimmed, with
/// one space between them and the whole trimmed again; the username where
/// both are blank.
pub open spec fn display_name_of(
    username: Seq<char>,
    first_name: Option<Seq<char>>,
    last_name: Option<Seq<char>>,
) -> Seq<char> {
    let first = trimmed(text_or_empty(first_name));
    let last = trimmed(text_or_empty(last_name));
    if first.len() == 0 && last.len() == 0 {
        username
    } else {
        trimmed(first + seq![' '] + last)
    }
}

impl UiSettingsUser {
    /// Returns the display name: "First Last" if available, otherwise the
    /// username.
    #[must_use]
    pub fn display_name(&self) -> (name: String)
        ensures
            name@ == display_name_of(
                self.username@,
                self.first_name.deep_view(),
                self.last_name.deep_view(),
            ),
    {
        proof {
            reveal_strlit("");
            reveal_strlit(" ");
            assert(""@ =~= Seq::<char>::empty());
            assert(" "@ =~= seq![' ']);
        }
        let first = trim(
            match &self.first_name {
                Some(text) => text.as_str(),
                None => "",
            },
        );
        let last = trim(
            match &self.last_name {
                Some(text) => text.as_str(),
                None => "",
            },
        );
        if first.is_empty() && last.is_empty() {
            self.username.clone()
        } else {
            let joined = String::from_str(first).concat(" ").concat(last);
            String::from_str(trim(joined.as_str()))
        }
    }
}

impl UiSettings {
    /// The version of the running server.
    pub fn version(self) -> (version: String)
        ensures
            version@ == self.settings.version@,
    {
        self.settings.version
    }
}

/// A document stored on the server.
#[derive(Debug, Clone, PartialEq, Eq)]
pub struct Document {
    /// Unique identifier.
    pub id: u64,
    /// Document title.
    pub title: String,
    /// Extracted text content.
    pub content: Option<String>,
    /// ID of the assigned correspondent.
    pub correspondent: Option<u64>,
    /// ID of the assigned document type.
    pub document_type: Option<u64>,
    /// IDs of assigned tags.
    pub tags: Vec<u64>,
    /// Date the document was created.
    pub created: Option<jiff::civil::Date>,
    /// Timestamp when the document was added to the server.
    pub added: Option<jiff::Timestamp>,
    /// Archive serial number.
    pub archive_serial_number: Option<u64>,
    /// Original file name at time of upload.
    pub original_file_name: Option<String>,
}

/// A [`Document`] as a mathematical value.
pub struct DocumentView {
    pub id: u64,
    pub title: Seq<char>,
    pub content: Option<Seq<char>>,
    pub correspondent: Option<u64>,
    pub document_type: Option<u64>,
    pub tags: Seq<u64>,
    pub created: Option<jiff::civil::Date>,
    pub added: Option<jiff::Timestamp>,
    pub archive_serial_number: Option<u64>,
    pub original_file_name: Option<Seq<char>>,
}

impl View for Document {
    type V = DocumentView;

    open spec fn view(&self) -> DocumentView {
        DocumentView {
            id: self.id,
            title: self.title@,
            content: self.content.deep_view(),
            correspondent: self.correspondent,
            document_type: self.document_type,
            tags: self.tags@,
            created: self.created,
            added: self.added,
            archive_serial_number: self.archive_serial_number,
            original_file_name: self.original_file_name.deep_view(),
        }
    }
}

impl Document {
    /// The extracted text of the document, empty where it has none.
    pub fn into_content(self) -> (text: String)
        ensures
            text@ == text_or_empty(self@.content),
    {
        match self.content {
            Some(text) => text,
            None => String::new(),
        }
    }
}

/// A tag used to categorize documents.
#[derive(Debug, Clone, PartialEq, Eq)]
pub struct Tag {
    /// Unique identifier.
    pub id: u64,
    /// Display name.
    pub name: String,
    /// URL-safe slug.
    pub slug: Option<String>,
    /// Hex color code (e.g. `#ff0000`).
    pub color: Option<String>,
    /// Whether this tag marks documents as inbox items.
    pub is_inbox_tag: Option<bool>,
    /// Number of documents with this tag.
    pub document_count: Option<u64>,
}

/// A correspondent (sender/recipient) associated with documents.
#[derive(Debug, Clone, PartialEq, Eq)]
pub struct Correspondent {
    /// Unique identifier.
    pub id: u64,
    /// Display name.
    pub name: String,
    /// URL-safe slug.
    pub slug: Option<String>,
    /// Number of documents from this correspondent.
    pub document_count: Option<u64>,
}

/// A document type used to classify documents.
#[derive(Debug, Clone, PartialEq, Eq)]
pub struct DocumentType {
    /// Unique identifier.
    pub id: u64,
    /// Display name.
    pub name: String,
    /// URL-safe slug.
    pub slug: Option<String>,
    /// Number of documents with this type.
    pub document_count: Option<u64>,
}

} // verus!
