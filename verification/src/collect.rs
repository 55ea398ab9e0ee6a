//! Collecting a paged collection. The server hands out one page at a time,
//! each naming the next; a [`Collector`] is the state between two requests.
//! It tells which request is pending, takes the page that answers it, and
//! decides whether to go on, to stop, or to fail.

use crate::address::{url_parse, Address};
use crate::client::{json_request, Client, ClientView, Request, RequestView};
use crate::error::{ApiError, ApiErrorView};
use crate::types::{Correspondent, Document, DocumentType, PageView, PaginatedResponse, Tag};
use vstd::prelude::*;
use vstd::string::*;

verus! {

/// A [`Collector`] as a mathematical value.
pub struct CollectorView<T> {
    /// The scheme that every followed reference must use.
    pub scheme: Seq<char>,
    /// The credential that every request carries.
    pub token: Seq<char>,
    /// The most items to return; `usize::MAX` where the caller set no limit.
    pub max: nat,
    /// The total that the first page reported, once it has arrived.
    pub total: Option<u64>,
    /// The items collected so far, in the order they arrived.
    pub items: Seq<T>,
    /// The request that is to be sent next.
    pub pending: RequestView,
}

/// The most items to return under `limit`.
pub open spec fn max_of(limit: Option<usize>) -> nat {
    match limit {
        Some(n) => n as nat,
        None => usize::MAX as nat,
    }
}

/// The state in which a collection starts: nothing collected, the request
/// for the first page pending.
pub open spec fn started<T>(client: ClientView, first: Seq<char>, limit: Option<usize>)
    -> CollectorView<T> {
    CollectorView {
        scheme: client.base.scheme,
        token: client.token,
        max: max_of(limit),
        total: None,
        items: Seq::empty(),
        pending: json_request(client.token, first),
    }
}

/// `items`, cut to at most `max` of them.
pub open spec fn truncated<T>(items: Seq<T>, max: nat) -> Seq<T> {
    if items.len() <= max {
        items
    } else {
        items.take(max as int)
    }
}

/// What a collector does with a page.
pub enum Outcome<T> {
    /// More is needed and the page names where it is: send the pending
    /// request of the new state.
    Fetch(CollectorView<T>),
    /// The collection is complete, or the limit is reached.
    Done { items: Seq<T>, total: u64 },
    /// The page names a next page that is no absolute URL.
    BadReference,
    /// The page names a next page under another scheme than the server's.
    SchemeMismatch { expected: Seq<char>, returned: Seq<char> },
}

/// The decision on a page. The page's items are appended to those collected
/// so far. The total is that of the first page. Collecting stops, with the
/// items cut to the limit, when the limit is reached or the page names no
/// next page. A next page is asked for only at a URL that parses and has the
/// scheme of the server's base address.
pub open spec fn absorb<T>(state: CollectorView<T>, page: PageView<T>) -> Outcome<T> {
    let items = state.items + page.results;
    let total = match state.total {
        Some(total) => total,
        None => page.count,
    };
    if items.len() >= state.max || page.next is None {
        Outcome::Done { items: truncated(items, state.max), total }
    } else {
        match url_parse(page.next->0) {
            None => Outcome::BadReference,
            Some(next) => if next.scheme != state.scheme {
                Outcome::SchemeMismatch { expected: state.scheme, returned: next.scheme }
            } else {
                Outcome::Fetch(
                    CollectorView {
                        total: Some(total),
                        items,
                        pending: json_request(state.token, next.text),
                        ..state
                    },
                )
            },
        }
    }
}

/// A collection under way: what has been collected, and the request whose
/// answer is awaited.
pub struct Collector<T> {
    scheme: String,
    token: String,
    max: usize,
    total: Option<u64>,
    items: Vec<T>,
    pending: Request,
}

impl<T> View for Collector<T> {
    type V = CollectorView<T>;

    closed spec fn view(&self) -> CollectorView<T> {
        CollectorView {
            scheme: self.scheme@,
            token: self.token@,
            max: self.max as nat,
            total: self.total,
            items: self.items@,
            pending: self.pending@,
        }
    }
}

/// What is to be done after a page has been taken in.
pub enum Progress<T> {
    /// Send the collector's pending request and hand it the page that
    /// answers.
    Fetch(Collector<T>),
    /// The collection is done: the items, and the total that the server
    /// reported for the whole collection.
    Done(Vec<T>, u64),
}

/// Whether `r` carries out the decision `outcome`.
pub open spec fn carries_out<T>(r: Result<Progress<T>, ApiError>, outcome: Outcome<T>) -> bool {
    match outcome {
        Outcome::Fetch(state) => r matches Ok(Progress::Fetch(next)) && next@ == state,
        Outcome::Done { items, total } => r matches Ok(Progress::Done(collected, reported))
            && collected@ == items && reported == total,
        Outcome::BadReference => r matches Err(e) && e@ is InvalidUrl,
        Outcome::SchemeMismatch { expected, returned } => r matches Err(e) && e@
            == (ApiErrorView::SchemeMismatch { expected, returned }),
    }
}

impl<T> Collector<T> {
    /// The request to send next.
    pub fn request(&self) -> (request: &Request)
        ensures
            request@ == self@.pending,
    {
        &self.pending
    }

    /// The number of items collected so far.
    pub fn collected(&self) -> (n: usize)
        ensures
            n == self@.items.len(),
    {
        self.items.len()
    }

    /// Takes in the page that answers the pending request and decides what
    /// is next, as [`absorb`] says. A scheme mismatch or an unusable
    /// reference is reported before any request for that page exists.
    pub fn receive(self, page: PaginatedResponse<T>) -> (r: Result<Progress<T>, ApiError>)
        ensures
            carries_out(r, absorb(self@, page@)),
    {
        let scheme = self.scheme;
        let token = self.token;
        let max = self.max;
        let mut items = self.items;
        let mut results = page.results;
        let total = match self.total {
            Some(total) => total,
            None => page.count,
        };
        items.append(&mut results);
        let ghost all = items@;
        let next = match page.next {
            Some(next) => {
                if items.len() >= max {
                    items.truncate(max);
                    assert(items@ =~= truncated(all, max as nat));
                    return Ok(Progress::Done(items, total));
                }
                next
            },
            None => {
                items.truncate(max);
                assert(items@ =~= truncated(all, max as nat));
                return Ok(Progress::Done(items, total));
            },
        };
        let parsed = Address::parse(next.as_str())?;
        let returned = String::from_str(parsed.scheme());
        if !(returned == scheme) {
            return Err(ApiError::SchemeMismatch { expected: scheme, returned });
        }
        let pending = Request {
            url: String::from_str(parsed.as_str()),
            accept: Some(String::from_str(crate::client::ACCEPT_JSON)),
            authorization: String::from_str("Token ").concat(token.as_str()),
        };
        Ok(Progress::Fetch(Collector { scheme, token, max, total: Some(total), items, pending }))
    }
}

/// Whether `r` starts the collection whose first page is at `first`, or is
/// `InvalidUrl` where there is no such URL.
pub open spec fn starts<T>(
    r: Result<Collector<T>, ApiError>,
    client: ClientView,
    first: Option<Seq<char>>,
    limit: Option<usize>,
) -> bool {
    match first {
        Some(url) => r matches Ok(collector) && collector@ == started::<T>(client, url, limit),
        None => r matches Err(e) && e@ is InvalidUrl,
    }
}

impl Client {
    /// Starts a collection of at most `limit` items whose first page is at
    /// `first`; `None` collects everything.
    pub fn paginate<T>(&self, first: String, limit: Option<usize>) -> (collector: Collector<T>)
        ensures
            collector@ == started::<T>(self@, first@, limit),
    {
        Collector {
            scheme: String::from_str(self.base_url().scheme()),
            token: String::from_str(self.token()),
            max: match limit {
                Some(n) => n,
                None => usize::MAX,
            },
            total: None,
            items: Vec::new(),
            pending: self.get(first),
        }
    }

    fn collect<T>(&self, first: Result<Request, ApiError>, limit: Option<usize>) -> (r: Result<
        Collector<T>,
        ApiError,
    >)
        requires
            first matches Err(e) ==> e@ is InvalidUrl,
        ensures
            match first {
                Ok(request) => r matches Ok(collector) && collector@ == started::<T>(
                    self@,
                    request@.url,
                    limit,
                ),
                Err(_) => r matches Err(e) && e@ is InvalidUrl,
            },
    {
        match first {
            Ok(request) => Ok(self.paginate(request.url, limit)),
            Err(e) => Err(e),
        }
    }

    /// Starts collecting documents, up to `limit`.
    pub fn collect_documents(&self, limit: Option<usize>) -> (r: Result<
        Collector<Document>,
        ApiError,
    >)
        ensures
            starts(r, self@, self@.documents_url(), limit),
    {
        self.collect(self.documents(), limit)
    }

    /// Starts collecting the documents in the inbox, up to `limit`.
    pub fn collect_inbox_documents(&self, limit: Option<usize>) -> (r: Result<
        Collector<Document>,
        ApiError,
    >)
        ensures
            starts(r, self@, self@.inbox_url(), limit),
    {
        self.collect(self.inbox_documents(), limit)
    }

    /// Starts collecting the documents that match `query`, up to `limit`.
    pub fn collect_search(&self, query: &str, limit: Option<usize>) -> (r: Result<
        Collector<Document>,
        ApiError,
    >)
        ensures
            starts(r, self@, self@.search_url(query@), limit),
    {
        self.collect(self.search(query), limit)
    }

    /// Starts collecting tags, up to `limit`.
    pub fn collect_tags(&self, limit: Option<usize>) -> (r: Result<Collector<Tag>, ApiError>)
        ensures
            starts(r, self@, self@.list_url("api/tags/"@), limit),
    {
        self.collect(self.tags(), limit)
    }

    /// Starts collecting correspondents, up to `limit`.
    pub fn collect_correspondents(&self, limit: Option<usize>) -> (r: Result<
        Collector<Correspondent>,
        ApiError,
    >)
        ensures
            starts(r, self@, self@.list_url("api/correspondents/"@), limit),
    {
        self.collect(self.correspondents(), limit)
    }

    /// Starts collecting document types, up to `limit`.
    pub fn collect_document_types(&self, limit: Option<usize>) -> (r: Result<
        Collector<DocumentType>,
        ApiError,
    >)
        ensures
            starts(r, self@, self@.list_url("api/document_types/"@), limit),
    {
        self.collect(self.document_types(), limit)
    }
}

/// How a collection went over a run of pages: the decision it came to, and
/// how many requests were answered on the way.
pub struct Run<T> {
    pub outcome: Outcome<T>,
    pub requests: nat,
}

/// The collection that starts in `state` and receives `pages` in order, one
/// for each request it makes, until it stops or the pages run out. Pages
/// after the one on which it stops are never asked for.
pub open spec fn replay<T>(state: CollectorView<T>, pages: Seq<PageView<T>>) -> Run<T>
    decreases pages.len(),
{
    if pages.len() == 0 {
        Run { outcome: Outcome::Fetch(state), requests: 0 }
    } else {
        match absorb(state, pages.first()) {
            Outcome::Fetch(next) => {
                let rest = replay(next, pages.drop_first());
                Run { outcome: rest.outcome, requests: rest.requests + 1 }
            },
            outcome => Run { outcome, requests: 1 },
        }
    }
}

/// The items of `pages`, page after page.
pub open spec fn all_items<T>(pages: Seq<PageView<T>>) -> Seq<T>
    decreases pages.len(),
{
    if pages.len() == 0 {
        Seq::empty()
    } else {
        pages.first().results + all_items(pages.drop_first())
    }
}

/// Whether `page` names a next page that a collector for `scheme` follows.
pub open spec fn leads_on<T>(scheme: Seq<char>, page: PageView<T>) -> bool {
    page.next matches Some(url) && url_parse(url) matches Some(next) && next.scheme == scheme
}

/// Whether `pages` is a whole collection as a server for `scheme` links it:
/// every page but the last leads on, and the last names no next page.
pub open spec fn linked<T>(scheme: Seq<char>, pages: Seq<PageView<T>>) -> bool {
    &&& pages.len() > 0
    &&& pages.last().next is None
    &&& forall|i: int| 0 <= i < pages.len() - 1 ==> leads_on(scheme, #[trigger] pages[i])
}

/// A first page that holds at least as many items as the limit asks for
/// ends the collection at once: one request, exactly `limit` items, and the
/// total as the server reported it.
pub proof fn lemma_first_page_meets_limit<T>(
    client: ClientView,
    first: Seq<char>,
    limit: usize,
    pages: Seq<PageView<T>>,
)
    requires
        pages.len() > 0,
        pages.first().results.len() >= limit,
    ensures
        replay(started::<T>(client, first, Some(limit)), pages) == (Run {
            outcome: Outcome::Done {
                items: pages.first().results.take(limit as int),
                total: pages.first().count,
            },
            requests: 1,
        }),
        pages.first().results.take(limit as int).len() == limit,
{
    let state = started::<T>(client, first, Some(limit));
    let page = pages.first();
    assert(state.items + page.results =~= page.results);
    assert(truncated(page.results, limit as nat) =~= page.results.take(limit as int));
}

/// Over a linked run of pages a collection ends with the items of the
/// pages, in the order of the pages and within a page in the page's order,
/// cut to the limit; the total is that of the first page it saw.
pub proof fn lemma_collects_in_order<T>(state: CollectorView<T>, pages: Seq<PageView<T>>)
    requires
        linked(state.scheme, pages),
    ensures
        replay(state, pages).outcome == (Outcome::Done {
            items: truncated(state.items + all_items(pages), state.max),
            total: match state.total {
                Some(total) => total,
                None => pages.first().count,
            },
        }),
        1 <= replay(state, pages).requests <= pages.len(),
    decreases pages.len(),
{
    let page = pages.first();
    let rest = pages.drop_first();
    let items = state.items + page.results;
    let everything = state.items + all_items(pages);
    assert(everything =~= items + all_items(rest));
    if items.len() >= state.max {
        assert(truncated(items, state.max) =~= truncated(everything, state.max));
    } else if page.next is None {
        assert(pages.len() == 1) by {
            if pages.len() > 1 {
                assert(leads_on(state.scheme, pages[0]));
            }
        }
        assert(all_items(rest) =~= Seq::<T>::empty());
        assert(everything =~= items);
    } else {
        assert(pages.len() > 1);
        assert(leads_on(state.scheme, pages[0]));
        let next = absorb(state, page)->Fetch_0;
        assert(linked(next.scheme, rest)) by {
            assert(rest.last() == pages.last());
            assert forall|i: int| 0 <= i < rest.len() - 1 implies leads_on(
                next.scheme,
                #[trigger] rest[i],
            ) by {
                assert(rest[i] == pages[i + 1]);
            }
        }
        lemma_collects_in_order(next, rest);
    }
}

/// Without a limit a collection over a linked run of pages returns every
/// item of every page exactly once, in order, provided that they are no
/// more than a machine can count.
pub proof fn lemma_unlimited_collects_everything<T>(
    client: ClientView,
    first: Seq<char>,
    pages: Seq<PageView<T>>,
)
    requires
        linked(client.base.scheme, pages),
        all_items(pages).len() <= usize::MAX,
    ensures
        replay(started::<T>(client, first, None), pages).outcome == (Outcome::Done {
            items: all_items(pages),
            total: pages.first().count,
        }),
{
    let state = started::<T>(client, first, None);
    lemma_collects_in_order(state, pages);
    assert(state.items + all_items(pages) =~= all_items(pages));
}

/// However a collection goes, what it returns holds no more items than the
/// limit allows, and while it goes on it holds fewer.
pub proof fn lemma_never_more_than_the_limit<T>(state: CollectorView<T>, pages: Seq<PageView<T>>)
    requires
        pages.len() > 0,
    ensures
        match replay(state, pages).outcome {
            Outcome::Done { items, total } => items.len() <= state.max,
            Outcome::Fetch(next) => next.items.len() < state.max && next.max == state.max,
            _ => true,
        },
    decreases pages.len(),
{
    match absorb(state, pages.first()) {
        Outcome::Fetch(next) => {
            if pages.len() > 1 {
                lemma_never_more_than_the_limit(next, pages.drop_first());
            }
        },
        _ => {},
    }
}

/// A collection goes on only to a page that the last page named, at an
/// address of the same scheme as the server's, with the same credential and
/// the same `Accept` header as every request before.
pub proof fn lemma_follows_only_the_servers_scheme<T>(state: CollectorView<T>, page: PageView<T>)
    ensures
        absorb(state, page) matches Outcome::Fetch(next) ==> {
            &&& page.next matches Some(reference)
            &&& url_parse(reference) matches Some(address)
            &&& address.scheme == state.scheme
            &&& next.pending == json_request(state.token, address.text)
            &&& next.scheme == state.scheme
            &&& next.token == state.token
        },
{
}

/// A page that names a next page under another scheme than the server's
/// fails the collection with `SchemeMismatch`, unless the limit is reached
/// with that page. No request for the named page is planned: the decision is
/// an error, not a state with a pending request.
pub proof fn lemma_scheme_mismatch_stops<T>(
    state: CollectorView<T>,
    page: PageView<T>,
    next: Seq<char>,
)
    requires
        page.next == Some(next),
        state.items.len() + page.results.len() < state.max,
        url_parse(next) matches Some(address) && address.scheme != state.scheme,
    ensures
        absorb(state, page) == (Outcome::<T>::SchemeMismatch {
            expected: state.scheme,
            returned: url_parse(next)->0.scheme,
        }),
        forall|rest: Seq<PageView<T>>| #[trigger]
            replay(state, seq![page] + rest) == (Run {
                outcome: absorb(state, page),
                requests: 1,
            }),
{
    assert forall|rest: Seq<PageView<T>>| #[trigger]
        replay(state, seq![page] + rest) == (Run {
            outcome: absorb(state, page),
            requests: 1,
        }) by {
        assert((seq![page] + rest).first() == page);
    }
}

} // verus!
