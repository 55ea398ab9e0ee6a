//! Fetching the names. A resolver is built from three collections, fetched
//! one after the other and each to its end: tags, then correspondents, then
//! document types. Each of the three states below is one of these stages;
//! only the last hands out a resolver, so none is ever seen half filled.

use crate::client::{Client, ClientView, Request};
use crate::collect::{
    absorb, all_items, carries_out, lemma_unlimited_collects_everything, linked, replay, started,
    Collector, CollectorView, Outcome, Progress,
};
use crate::error::{ApiError, ApiErrorView};
use crate::resolve::{resolver_of, NameResolver, NameResolverView};
use crate::types::{Correspondent, DocumentType, PageView, PaginatedResponse, Tag};
use vstd::prelude::*;

verus! {

/// What is to be done after a page of a stage has been taken in.
pub enum Step<Stage, Following> {
    /// The stage goes on: send its pending request.
    More(Stage),
    /// The stage is complete, and this is what follows it.
    Next(Following),
}

/// The first stage: the tags are being collected.
pub struct FetchingTags {
    tags: Collector<Tag>,
    correspondents: Collector<Correspondent>,
    document_types: Collector<DocumentType>,
}

/// A [`FetchingTags`] as a mathematical value.
pub struct FetchingTagsView {
    pub tags: CollectorView<Tag>,
    pub correspondents: CollectorView<Correspondent>,
    pub document_types: CollectorView<DocumentType>,
}

impl View for FetchingTags {
    type V = FetchingTagsView;

    closed spec fn view(&self) -> FetchingTagsView {
        FetchingTagsView {
            tags: self.tags@,
            correspondents: self.correspondents@,
            document_types: self.document_types@,
        }
    }
}

/// The second stage: the tags are there, the correspondents are being
/// collected.
pub struct FetchingCorrespondents {
    tags: Vec<Tag>,
    correspondents: Collector<Correspondent>,
    document_types: Collector<DocumentType>,
}

/// A [`FetchingCorrespondents`] as a mathematical value.
pub struct FetchingCorrespondentsView {
    pub tags: Seq<Tag>,
    pub correspondents: CollectorView<Correspondent>,
    pub document_types: CollectorView<DocumentType>,
}

impl View for FetchingCorrespondents {
    type V = FetchingCorrespondentsView;

    closed spec fn view(&self) -> FetchingCorrespondentsView {
        FetchingCorrespondentsView {
            tags: self.tags@,
            correspondents: self.correspondents@,
            document_types: self.document_types@,
        }
    }
}

/// The third stage: tags and correspondents are there, the document types
/// are being collected.
pub struct FetchingDocumentTypes {
    tags: Vec<Tag>,
    correspondents: Vec<Correspondent>,
    document_types: Collector<DocumentType>,
}

/// A [`FetchingDocumentTypes`] as a mathematical value.
pub struct FetchingDocumentTypesView {
    pub tags: Seq<Tag>,
    pub correspondents: Seq<Correspondent>,
    pub document_types: CollectorView<DocumentType>,
}

impl View for FetchingDocumentTypes {
    type V = FetchingDocumentTypesView;

    closed spec fn view(&self) -> FetchingDocumentTypesView {
        FetchingDocumentTypesView {
            tags: self.tags@,
            correspondents: self.correspondents@,
            document_types: self.document_types@,
        }
    }
}

/// The state in which the names of the server of `client` start to be
/// fetched: three collections without limit, none of them begun. There is
/// none where one of the three addresses cannot be formed.
pub open spec fn fetch_started(client: ClientView) -> Option<FetchingTagsView> {
    match (
        client.list_url("api/tags/"@),
        client.list_url("api/correspondents/"@),
        client.list_url("api/document_types/"@),
    ) {
        (Some(tags), Some(correspondents), Some(document_types)) => Some(
            FetchingTagsView {
                tags: started(client, tags, None),
                correspondents: started(client, correspondents, None),
                document_types: started(client, document_types, None),
            },
        ),
        _ => None,
    }
}

/// Whether `r` fails as the decision `outcome` of a collector fails.
pub open spec fn fails_as<S, T>(r: Result<S, ApiError>, outcome: Outcome<T>) -> bool {
    match outcome {
        Outcome::BadReference => r matches Err(e) && e@ is InvalidUrl,
        Outcome::SchemeMismatch { expected, returned } => r matches Err(e) && e@
            == (ApiErrorView::SchemeMismatch { expected, returned }),
        _ => false,
    }
}

impl NameResolver {
    /// Starts to fetch the names from the server of `client`. Fails with
    /// `InvalidUrl`, before anything is requested, exactly when one of the
    /// three addresses cannot be formed.
    pub fn fetch(client: &Client) -> (r: Result<FetchingTags, ApiError>)
        ensures
            match fetch_started(client@) {
                Some(state) => r matches Ok(fetching) && fetching@ == state,
                None => r matches Err(e) && e@ is InvalidUrl,
            },
    {
        let tags = client.collect_tags(None)?;
        let correspondents = client.collect_correspondents(None)?;
        let document_types = client.collect_document_types(None)?;
        Ok(FetchingTags { tags, correspondents, document_types })
    }
}

impl FetchingTags {
    /// The request to send next.
    pub fn request(&self) -> (request: &Request)
        ensures
            request@ == self@.tags.pending,
    {
        self.tags.request()
    }

    /// Takes in a page of tags. The tags are collected as any collection
    /// is; once they are complete, the correspondents follow. A failure
    /// ends the fetch.
    pub fn receive(self, page: PaginatedResponse<Tag>) -> (r: Result<
        Step<FetchingTags, FetchingCorrespondents>,
        ApiError,
    >)
        ensures
            match absorb(self@.tags, page@) {
                Outcome::Fetch(tags) => r matches Ok(Step::More(next)) && next@ == (
                FetchingTagsView { tags, ..self@ }),
                Outcome::Done { items, total } => r matches Ok(Step::Next(next)) && next@ == (
                FetchingCorrespondentsView {
                    tags: items,
                    correspondents: self@.correspondents,
                    document_types: self@.document_types,
                }),
                failure => fails_as(r, failure),
            },
    {
        match self.tags.receive(page)? {
            Progress::Fetch(tags) => Ok(
                Step::More(
                    FetchingTags {
                        tags,
                        correspondents: self.correspondents,
                        document_types: self.document_types,
                    },
                ),
            ),
            Progress::Done(tags, _) => Ok(
                Step::Next(
                    FetchingCorrespondents {
                        tags,
                        correspondents: self.correspondents,
                        document_types: self.document_types,
                    },
                ),
            ),
        }
    }
}

impl FetchingCorrespondents {
    /// The request to send next.
    pub fn request(&self) -> (request: &Request)
        ensures
            request@ == self@.correspondents.pending,
    {
        self.correspondents.request()
    }

    /// Takes in a page of correspondents. Once they are complete, the
    /// document types follow. A failure ends the fetch.
    pub fn receive(self, page: PaginatedResponse<Correspondent>) -> (r: Result<
        Step<FetchingCorrespondents, FetchingDocumentTypes>,
        ApiError,
    >)
        ensures
            match absorb(self@.correspondents, page@) {
                Outcome::Fetch(correspondents) => r matches Ok(Step::More(next)) && next@ == (
                FetchingCorrespondentsView { correspondents, ..self@ }),
                Outcome::Done { items, total } => r matches Ok(Step::Next(next)) && next@ == (
                FetchingDocumentTypesView {
                    tags: self@.tags,
                    correspondents: items,
                    document_types: self@.document_types,
                }),
                failure => fails_as(r, failure),
            },
    {
        match self.correspondents.receive(page)? {
            Progress::Fetch(correspondents) => Ok(
                Step::More(
                    FetchingCorrespondents {
                        tags: self.tags,
                        correspondents,
                        document_types: self.document_types,
                    },
                ),
            ),
            Progress::Done(correspondents, _) => Ok(
                Step::Next(
                    FetchingDocumentTypes {
                        tags: self.tags,
                        correspondents,
                        document_types: self.document_types,
                    },
                ),
            ),
        }
    }
}

impl FetchingDocumentTypes {
    /// The request to send next.
    pub fn request(&self) -> (request: &Request)
        ensures
            request@ == self@.document_types.pending,
    {
        self.document_types.request()
    }

    /// Takes in a page of document types. Once they are complete, the
    /// resolver is built from the three collections. A failure ends the
    /// fetch, and no resolver is built.
    pub fn receive(self, page: PaginatedResponse<DocumentType>) -> (r: Result<
        Step<FetchingDocumentTypes, NameResolver>,
        ApiError,
    >)
        ensures
            match absorb(self@.document_types, page@) {
                Outcome::Fetch(document_types) => r matches Ok(Step::More(next)) && next@ == (
                FetchingDocumentTypesView { document_types, ..self@ }),
                Outcome::Done { items, total } => r matches Ok(Step::Next(resolver)) && resolver@
                    == resolver_of(self@.tags, self@.correspondents, items),
                failure => fails_as(r, failure),
            },
    {
        match self.document_types.receive(page)? {
            Progress::Fetch(document_types) => Ok(
                Step::More(
                    FetchingDocumentTypes {
                        tags: self.tags,
                        correspondents: self.correspondents,
                        document_types,
                    },
                ),
            ),
            Progress::Done(document_types, _) => Ok(
                Step::Next(
                    NameResolver::from_records(
                        self.tags.as_slice(),
                        self.correspondents.as_slice(),
                        document_types.as_slice(),
                    ),
                ),
            ),
        }
    }
}

/// The items that a collection ends with over a run of pages, where it
/// ends well.
pub open spec fn collected<T>(state: CollectorView<T>, pages: Seq<PageView<T>>) -> Option<Seq<T>> {
    match replay(state, pages).outcome {
        Outcome::Done { items, total } => Some(items),
        _ => None,
    }
}

/// The resolver that a fetch ends with when its three collections receive
/// the three runs of pages, where each of them ends well.
pub open spec fn fetched(
    state: FetchingTagsView,
    tags: Seq<PageView<Tag>>,
    correspondents: Seq<PageView<Correspondent>>,
    document_types: Seq<PageView<DocumentType>>,
) -> Option<NameResolverView> {
    match (
        collected(state.tags, tags),
        collected(state.correspondents, correspondents),
        collected(state.document_types, document_types),
    ) {
        (Some(tags), Some(correspondents), Some(document_types)) => Some(
            resolver_of(tags, correspondents, document_types),
        ),
        _ => None,
    }
}

/// A fetch over three linked runs of pages ends with the resolver of every
/// record of every page: nothing is left out for a limit.
pub proof fn lemma_fetch_takes_every_record(
    client: ClientView,
    tags: Seq<PageView<Tag>>,
    correspondents: Seq<PageView<Correspondent>>,
    document_types: Seq<PageView<DocumentType>>,
)
    requires
        fetch_started(client) is Some,
        linked(client.base.scheme, tags),
        linked(client.base.scheme, correspondents),
        linked(client.base.scheme, document_types),
        all_items(tags).len() <= usize::MAX,
        all_items(correspondents).len() <= usize::MAX,
        all_items(document_types).len() <= usize::MAX,
    ensures
        fetched(fetch_started(client)->0, tags, correspondents, document_types) == Some(
            resolver_of(all_items(tags), all_items(correspondents), all_items(document_types)),
        ),
{
    lemma_unlimited_collects_everything(client, client.list_url("api/tags/"@)->0, tags);
    lemma_unlimited_collects_everything(
        client,
        client.list_url("api/correspondents/"@)->0,
        correspondents,
    );
    lemma_unlimited_collects_everything(
        client,
        client.list_url("api/document_types/"@)->0,
        document_types,
    );
}

} // verus!
