//! The client's configuration and the requests it plans. A [`Client`] sends
//! nothing: each operation returns the [`Request`] to perform.

use crate::address::{add_query_pair, url_join, url_parse, with_pair, Address, AddressView};
use crate::error::ApiError;
use crate::text::{decimal, decimal_string};
use crate::types::DocumentVersion;
use std::time::Duration;
use vstd::prelude::*;
use vstd::string::*;

verus! {

/// The number of items asked for per page unless the builder says otherwise.
pub const DEFAULT_PAGE_SIZE: u32 = 100;

/// The attributes asked for when documents are listed: what a list shows,
/// without the extracted content.
pub const DOCUMENT_LIST_FIELDS: &'static str =
    "id,title,correspondent,document_type,tags,created,added,archive_serial_number,original_file_name";

/// The `Accept` header of a JSON request, which pins the API version.
pub const ACCEPT_JSON: &'static str = "application/json; version=9";

/// One authenticated GET, ready to be sent. It holds the credential, so it
/// has no `Debug` form.
#[derive(Clone, PartialEq, Eq)]
pub struct Request {
    /// The absolute URL to fetch.
    pub url: String,
    /// The `Accept` header, where the request has one.
    pub accept: Option<String>,
    /// The `Authorization` header.
    pub authorization: String,
}

/// A [`Request`] as a mathematical value.
pub struct RequestView {
    pub url: Seq<char>,
    pub accept: Option<Seq<char>>,
    pub authorization: Seq<char>,
}

impl View for Request {
    type V = RequestView;

    open spec fn view(&self) -> RequestView {
        RequestView {
            url: self.url@,
            accept: self.accept.deep_view(),
            authorization: self.authorization@,
        }
    }
}

/// The `Authorization` header that carries `token`.
pub open spec fn authorization_of(token: Seq<char>) -> Seq<char> {
    "Token "@ + token
}

/// The request for a JSON payload at `url`.
pub open spec fn json_request(token: Seq<char>, url: Seq<char>) -> RequestView {
    RequestView { url, accept: Some(ACCEPT_JSON@), authorization: authorization_of(token) }
}

/// The request for a file at `url`: the body is taken as it comes, so no
/// `Accept` header is sent.
pub open spec fn file_request(token: Seq<char>, url: Seq<char>) -> RequestView {
    RequestView { url, accept: None, authorization: authorization_of(token) }
}

/// Whether `r` is the JSON request for `url`, or `InvalidUrl` where there is
/// no URL.
pub open spec fn plans_json(
    r: Result<Request, ApiError>,
    token: Seq<char>,
    url: Option<Seq<char>>,
) -> bool {
    match url {
        Some(text) => r matches Ok(request) && request@ == json_request(token, text),
        None => r matches Err(e) && e@ is InvalidUrl,
    }
}

/// Whether `r` is the file request for `url`, or `InvalidUrl` where there is
/// no URL.
pub open spec fn plans_file(
    r: Result<Request, ApiError>,
    token: Seq<char>,
    url: Option<Seq<char>>,
) -> bool {
    match url {
        Some(text) => r matches Ok(request) && request@ == file_request(token, text),
        None => r matches Err(e) && e@ is InvalidUrl,
    }
}

/// The path of the document `id`, relative to the server's base address.
pub open spec fn document_path(id: u64) -> Seq<char> {
    "api/documents/"@ + decimal(id as nat) + "/"@
}

/// The path of a file of the document `id`: the original upload, or the
/// archived version.
pub open spec fn file_path(id: u64, version: DocumentVersion) -> Seq<char> {
    match version {
        DocumentVersion::Original => document_path(id) + "download/"@,
        DocumentVersion::Archived => document_path(id) + "preview/"@,
    }
}

/// A [`Client`] as a mathematical value.
pub struct ClientView {
    pub base: AddressView,
    pub token: Seq<char>,
    pub timeout: Option<Duration>,
    pub page_size: u32,
}

impl ClientView {
    /// The absolute URL of `path` on this server.
    pub open spec fn endpoint(self, path: Seq<char>) -> Option<Seq<char>> {
        url_join(self.base.text, path)
    }

    /// `url` with the `page_size` parameter of this client.
    pub open spec fn paged(self, url: Option<Seq<char>>) -> Option<Seq<char>> {
        with_pair(url, "page_size"@, decimal(self.page_size as nat))
    }

    /// The first page of all documents.
    pub open spec fn documents_url(self) -> Option<Seq<char>> {
        self.paged(with_pair(self.endpoint("api/documents/"@), "fields"@, DOCUMENT_LIST_FIELDS@))
    }

    /// The first page of the documents in the inbox.
    pub open spec fn inbox_url(self) -> Option<Seq<char>> {
        self.paged(
            with_pair(
                with_pair(self.endpoint("api/documents/"@), "is_in_inbox"@, "true"@),
                "fields"@,
                DOCUMENT_LIST_FIELDS@,
            ),
        )
    }

    /// The first page of the documents that match `query`.
    pub open spec fn search_url(self, query: Seq<char>) -> Option<Seq<char>> {
        self.paged(with_pair(self.endpoint("api/documents/"@), "query"@, query))
    }

    /// The first page of the collection at `path`.
    pub open spec fn list_url(self, path: Seq<char>) -> Option<Seq<char>> {
        self.paged(self.endpoint(path))
    }
}

/// A client for the REST API of one server: where the server is, how to
/// authenticate, and how to page.
#[derive(Clone)]
pub struct Client {
    base: Address,
    token: String,
    timeout: Option<Duration>,
    page_size: u32,
}

impl View for Client {
    type V = ClientView;

    closed spec fn view(&self) -> ClientView {
        ClientView {
            base: self.base@,
            token: self.token@,
            timeout: self.timeout,
            page_size: self.page_size,
        }
    }
}

/// A builder for configuring a [`Client`].
#[derive(Clone)]
pub struct ClientBuilder {
    base_url: String,
    token: String,
    timeout: Option<Duration>,
    page_size: u32,
}

/// A [`ClientBuilder`] as a mathematical value.
pub struct ClientBuilderView {
    pub base_url: Seq<char>,
    pub token: Seq<char>,
    pub timeout: Option<Duration>,
    pub page_size: u32,
}

impl View for ClientBuilder {
    type V = ClientBuilderView;

    closed spec fn view(&self) -> ClientBuilderView {
        ClientBuilderView {
            base_url: self.base_url@,
            token: self.token@,
            timeout: self.timeout,
            page_size: self.page_size,
        }
    }
}

impl ClientBuilderView {
    /// The client that this configuration builds, where its base URL parses.
    pub open spec fn built(self) -> Option<ClientView> {
        match url_parse(self.base_url) {
            Some(base) => Some(
                ClientView {
                    base,
                    token: self.token,
                    timeout: self.timeout,
                    page_size: self.page_size,
                },
            ),
            None => None,
        }
    }
}

/// Whether `r` is the client `wanted`, or `InvalidUrl` where there is none.
pub open spec fn builds(r: Result<Client, ApiError>, wanted: Option<ClientView>) -> bool {
    match wanted {
        Some(client) => r matches Ok(c) && c@ == client,
        None => r matches Err(e) && e@ is InvalidUrl,
    }
}

impl ClientBuilder {
    /// Sets the global request timeout.
    #[must_use]
    pub fn timeout(self, timeout: Duration) -> (builder: Self)
        ensures
            builder@ == (ClientBuilderView { timeout: Some(timeout), ..self@ }),
    {
        ClientBuilder {
            base_url: self.base_url,
            token: self.token,
            timeout: Some(timeout),
            page_size: self.page_size,
        }
    }

    /// Sets the number of items to request per page.
    #[must_use]
    pub fn page_size(self, page_size: u32) -> (builder: Self)
        ensures
            builder@ == (ClientBuilderView { page_size, ..self@ }),
    {
        ClientBuilder {
            base_url: self.base_url,
            token: self.token,
            timeout: self.timeout,
            page_size,
        }
    }

    /// Builds the [`Client`]. Fails with `InvalidUrl` exactly when the base
    /// URL cannot be parsed.
    pub fn build(self) -> (r: Result<Client, ApiError>)
        ensures
            builds(r, self@.built()),
    {
        match Address::parse(self.base_url.as_str()) {
            Ok(base) => Ok(
                Client {
                    base,
                    token: self.token,
                    timeout: self.timeout,
                    page_size: self.page_size,
                },
            ),
            Err(e) => Err(e),
        }
    }
}

impl Client {
    /// Creates a client with the given base URL and API token, the default
    /// page size and no timeout.
    pub fn new(base_url: &str, token: &str) -> (r: Result<Client, ApiError>)
        ensures
            builds(
                r,
                (ClientBuilderView {
                    base_url: base_url@,
                    token: token@,
                    timeout: None,
                    page_size: DEFAULT_PAGE_SIZE,
                }).built(),
            ),
    {
        Client::builder(base_url, token).build()
    }

    /// Returns a [`ClientBuilder`] for configuring a new client.
    #[must_use]
    pub fn builder(base_url: &str, token: &str) -> (builder: ClientBuilder)
        ensures
            builder@ == (ClientBuilderView {
                base_url: base_url@,
                token: token@,
                timeout: None,
                page_size: DEFAULT_PAGE_SIZE,
            }),
    {
        ClientBuilder {
            base_url: String::from_str(base_url),
            token: String::from_str(token),
            timeout: None,
            page_size: DEFAULT_PAGE_SIZE,
        }
    }

    /// The server's base address.
    pub fn base_url(&self) -> (base: &Address)
        ensures
            base@ == self@.base,
    {
        &self.base
    }

    /// The API token.
    pub fn token(&self) -> (token: &str)
        ensures
            token@ == self@.token,
    {
        self.token.as_str()
    }

    /// The request timeout, where one was set.
    pub fn request_timeout(&self) -> (timeout: Option<Duration>)
        ensures
            timeout == self@.timeout,
    {
        self.timeout
    }

    /// The number of items asked for per page.
    pub fn items_per_page(&self) -> (page_size: u32)
        ensures
            page_size == self@.page_size,
    {
        self.page_size
    }

    /// The `Authorization` header of every request of this client.
    pub fn authorization(&self) -> (header: String)
        ensures
            header@ == authorization_of(self@.token),
    {
        String::from_str("Token ").concat(self.token.as_str())
    }

    /// The authenticated request for the JSON payload at `url`.
    pub fn get(&self, url: String) -> (request: Request)
        ensures
            request@ == json_request(self@.token, url@),
    {
        Request {
            url,
            accept: Some(String::from_str(ACCEPT_JSON)),
            authorization: self.authorization(),
        }
    }

    fn url(&self, path: &str) -> (r: Result<String, ApiError>)
        ensures
            crate::address::yields_url(r, self@.endpoint(path@)),
    {
        self.base.join(path)
    }

    fn paged(&self, url: Result<String, ApiError>) -> (r: Result<Request, ApiError>)
        requires
            url matches Err(e) ==> e@ is InvalidUrl,
        ensures
            match url {
                Ok(text) => plans_json(r, self@.token, self@.paged(Some(text@))),
                Err(_) => r matches Err(e) && e@ is InvalidUrl,
            },
    {
        let size: u64 = self.page_size as u64;
        match url {
            Ok(text) => match add_query_pair(
                text.as_str(),
                "page_size",
                decimal_string(size).as_str(),
            ) {
                Ok(paged) => Ok(self.get(paged)),
                Err(e) => Err(e),
            },
            Err(e) => Err(e),
        }
    }

    fn documents_base(&self) -> (r: Result<String, ApiError>)
        ensures
            crate::address::yields_url(r, self@.endpoint("api/documents/"@)),
    {
        self.url("api/documents/")
    }

    /// The request for the UI settings, which hold the user and the server
    /// version.
    pub fn ui_settings(&self) -> (r: Result<Request, ApiError>)
        ensures
            plans_json(r, self@.token, self@.endpoint("api/ui_settings/"@)),
    {
        match self.url("api/ui_settings/") {
            Ok(url) => Ok(self.get(url)),
            Err(e) => Err(e),
        }
    }

    /// The request that answers which version the server runs: the UI
    /// settings, of which [`crate::types::UiSettings::version`] is the answer.
    pub fn server_version(&self) -> (r: Result<Request, ApiError>)
        ensures
            plans_json(r, self@.token, self@.endpoint("api/ui_settings/"@)),
    {
        self.ui_settings()
    }

    /// The request for the first page of documents.
    pub fn documents(&self) -> (r: Result<Request, ApiError>)
        ensures
            plans_json(r, self@.token, self@.documents_url()),
    {
        match self.documents_base() {
            Ok(url) => self.paged(add_query_pair(url.as_str(), "fields", DOCUMENT_LIST_FIELDS)),
            Err(e) => Err(e),
        }
    }

    /// The request for a single document.
    pub fn document(&self, id: u64) -> (r: Result<Request, ApiError>)
        ensures
            plans_json(r, self@.token, self@.endpoint(document_path(id))),
    {
        let path = String::from_str("api/documents/").concat(decimal_string(id).as_str()).concat(
            "/",
        );
        match self.url(path.as_str()) {
            Ok(url) => Ok(self.get(url)),
            Err(e) => Err(e),
        }
    }

    /// The request that answers what text a document holds: the document
    /// itself, of which [`crate::types::Document::into_content`] is the answer.
    pub fn document_content(&self, id: u64) -> (r: Result<Request, ApiError>)
        ensures
            plans_json(r, self@.token, self@.endpoint(document_path(id))),
    {
        self.document(id)
    }

    /// The request for a file of a document, whose body is to be streamed
    /// into the caller's sink as it is.
    pub fn download_document(&self, id: u64, version: DocumentVersion) -> (r: Result<
        Request,
        ApiError,
    >)
        ensures
            plans_file(r, self@.token, self@.endpoint(file_path(id, version))),
    {
        let document = String::from_str("api/documents/").concat(
            decimal_string(id).as_str(),
        ).concat("/");
        let path = match version {
            DocumentVersion::Original => document.concat("download/"),
            DocumentVersion::Archived => document.concat("preview/"),
        };
        match self.url(path.as_str()) {
            Ok(url) => Ok(Request { url, accept: None, authorization: self.authorization() }),
            Err(e) => Err(e),
        }
    }

    /// The request for the first page of tags.
    pub fn tags(&self) -> (r: Result<Request, ApiError>)
        ensures
            plans_json(r, self@.token, self@.list_url("api/tags/"@)),
    {
        self.paged(self.url("api/tags/"))
    }

    /// The request for the first page of correspondents.
    pub fn correspondents(&self) -> (r: Result<Request, ApiError>)
        ensures
            plans_json(r, self@.token, self@.list_url("api/correspondents/"@)),
    {
        self.paged(self.url("api/correspondents/"))
    }

    /// The request for the first page of document types.
    pub fn document_types(&self) -> (r: Result<Request, ApiError>)
        ensures
            plans_json(r, self@.token, self@.list_url("api/document_types/"@)),
    {
        self.paged(self.url("api/document_types/"))
    }

    /// The request for the first page of inbox documents: those that carry
    /// an inbox tag.
    pub fn inbox_documents(&self) -> (r: Result<Request, ApiError>)
        ensures
            plans_json(r, self@.token, self@.inbox_url()),
    {
        match self.documents_base() {
            Ok(url) => match add_query_pair(url.as_str(), "is_in_inbox", "true") {
                Ok(inbox) => self.paged(
                    add_query_pair(inbox.as_str(), "fields", DOCUMENT_LIST_FIELDS),
                ),
                Err(e) => Err(e),
            },
            Err(e) => Err(e),
        }
    }

    /// The request for the first page of documents matching `query`.
    pub fn search(&self, query: &str) -> (r: Result<Request, ApiError>)
        ensures
            plans_json(r, self@.token, self@.search_url(query@)),
    {
        match self.documents_base() {
            Ok(url) => self.paged(add_query_pair(url.as_str(), "query", query)),
            Err(e) => Err(e),
        }
    }
}

} // verus!
