//! Listing a collection page by page.
//!
//! The server decides how a listing is cut into pages: each page may link to
//! the next one. A [`Listing`] is the state of one walk through the pages. It
//! says which request comes next, takes the reply to it, and either goes on
//! or ends with every item collected, in the order received. The caller sends
//! the requests; nothing here touches the network.

use crate::json::{collect_listed, get_member, get_string, listed_under, member, string_of};
use crate::text::{strip_leading, without_leading};
use crate::transport::{api_request, request_for, Method, Request, RequestView, TransportError};
use serde_json::Value;
use vstd::prelude::*;
use vstd::string::*;

verus! {

/// The query of the first request of every listing.
pub const FIRST_PAGE_QUERY: &'static str = "all=true";

/// What the client reads of one page: its items, which it does not look
/// into, and the link to the next page, as the server wrote it.
#[derive(Debug)]
pub struct Page {
    pub items: Vec<Value>,
    pub next: Option<String>,
}

/// The mathematical content of a [`Page`].
pub struct PageView {
    pub items: Seq<Value>,
    pub next: Option<Seq<char>>,
}

impl View for Page {
    type V = PageView;

    open spec fn view(&self) -> PageView {
        PageView {
            items: self.items@,
            next: match self.next {
                Some(link) => Some(link@),
                None => None,
            },
        }
    }
}

/// The walk through one collection: what has been collected so far and where
/// to resume.
#[derive(Debug)]
pub struct Listing {
    /// The collection's resource path.
    pub resource: String,
    /// The credential attached to every request.
    pub bearer: String,
    /// The items of the pages received so far, in order.
    pub items: Vec<Value>,
    /// The query that asks for the next page; `None` before the first page.
    pub cursor: Option<String>,
}

/// The mathematical content of a [`Listing`].
pub struct ListingView {
    pub resource: Seq<char>,
    pub bearer: Seq<char>,
    pub items: Seq<Value>,
    pub cursor: Option<Seq<char>>,
}

impl View for Listing {
    type V = ListingView;

    open spec fn view(&self) -> ListingView {
        ListingView {
            resource: self.resource@,
            bearer: self.bearer@,
            items: self.items@,
            cursor: match self.cursor {
                Some(cursor) => Some(cursor@),
                None => None,
            },
        }
    }
}

/// Where a listing stands after a reply.
#[derive(Debug)]
pub enum Progress {
    /// The page linked to a successor: send the next request.
    Continue(Listing),
    /// The page was the last one: these are all the items.
    Finished(Vec<Value>),
    /// The exchange failed. What had been collected is dropped.
    Failed(TransportError),
}

/// The mathematical content of a [`Progress`].
pub enum ProgressView {
    Continue(ListingView),
    Finished(Seq<Value>),
    Failed(TransportError),
}

impl View for Progress {
    type V = ProgressView;

    open spec fn view(&self) -> ProgressView {
        match *self {
            Progress::Continue(listing) => ProgressView::Continue(listing@),
            Progress::Finished(items) => ProgressView::Finished(items@),
            Progress::Failed(error) => ProgressView::Failed(error),
        }
    }
}

/// The items a response contributes: the elements of its `data` array, or
/// none where `data` is missing or is not an array.
pub open spec fn page_items(envelope: Value) -> Seq<Value> {
    listed_under(envelope, "data"@)
}

/// The link to the next page: the string under `links.next`. `None` where
/// `links` or `next` is missing or `next` is not a string.
pub open spec fn next_link(envelope: Value) -> Option<Seq<char>> {
    match member(envelope, "links"@) {
        Some(links) => match member(links, "next"@) {
            Some(next) => string_of(next),
            None => None,
        },
        None => None,
    }
}

/// The page that a response holds.
pub open spec fn page_of(envelope: Value) -> PageView {
    PageView { items: page_items(envelope), next: next_link(envelope) }
}

/// The reply to a listing's request, read as a page.
pub open spec fn page_reply(reply: Result<Value, TransportError>) -> Result<
    PageView,
    TransportError,
> {
    match reply {
        Ok(envelope) => Ok(page_of(envelope)),
        Err(error) => Err(error),
    }
}

/// The query that asks for the page behind `link`: the link without the
/// question marks in front of it, so that it can follow the question mark
/// that ends the resource path.
pub open spec fn cursor_of(link: Seq<char>) -> Seq<char> {
    without_leading(link, '?')
}

impl ListingView {
    /// A listing of `resource` before its first request.
    pub open spec fn start(resource: Seq<char>, bearer: Seq<char>) -> ListingView {
        ListingView { resource, bearer, items: Seq::empty(), cursor: None }
    }

    /// The query of the next request.
    pub open spec fn query(self) -> Seq<char> {
        match self.cursor {
            Some(cursor) => cursor,
            None => FIRST_PAGE_QUERY@,
        }
    }

    /// The resource path of the next request, query included.
    pub open spec fn target(self) -> Seq<char> {
        self.resource + "?"@ + self.query()
    }

    /// The next request: a GET without a body.
    pub open spec fn request(self) -> RequestView {
        request_for(self.target(), Method::Get, None, self.bearer)
    }

    /// The listing with the items of `page` added and `cursor` to resume at.
    pub open spec fn resumed(self, page: PageView, cursor: Seq<char>) -> ListingView {
        ListingView {
            resource: self.resource,
            bearer: self.bearer,
            items: self.items + page.items,
            cursor: Some(cursor),
        }
    }

    /// Where the listing stands after `page`: its items are added, and the
    /// listing goes on where the page links to a successor and is finished
    /// where it does not.
    pub open spec fn turn(self, page: PageView) -> ProgressView {
        match page.next {
            Some(link) => ProgressView::Continue(self.resumed(page, cursor_of(link))),
            None => ProgressView::Finished(self.items + page.items),
        }
    }

    /// Where the listing stands after `reply`.
    pub open spec fn advance(self, reply: Result<PageView, TransportError>) -> ProgressView {
        match reply {
            Ok(page) => self.turn(page),
            Err(error) => ProgressView::Failed(error),
        }
    }
}

/// Reads the link to the next page out of a response.
pub fn read_next_link(envelope: &Value) -> (link: Option<String>)
    ensures
        match link {
            Some(text) => next_link(*envelope) == Some(text@),
            None => next_link(*envelope) is None,
        },
{
    match get_member(envelope, "links") {
        Some(links) => match get_member(links, "next") {
            Some(next) => match get_string(next) {
                Some(text) => Some(text.to_owned()),
                None => None,
            },
            None => None,
        },
        None => None,
    }
}

impl Page {
    /// Reads a page out of a response. Neither a missing `data` nor a
    /// missing link is an error: the one means no items, the other no
    /// successor.
    pub fn read(envelope: &Value) -> (page: Page)
        ensures
            page@ == page_of(*envelope),
    {
        let mut items: Vec<Value> = Vec::new();
        collect_listed(envelope, "data", &mut items);
        assert(Seq::<Value>::empty() + page_items(*envelope) =~= page_items(*envelope));
        Page { items, next: read_next_link(envelope) }
    }
}

impl Listing {
    /// Starts a listing of `resource`. Nothing is collected yet, and the first
    /// request will ask for the first page.
    pub fn new(resource: &str, bearer: &str) -> (listing: Listing)
        ensures
            listing@ == ListingView::start(resource@, bearer@),
    {
        Listing {
            resource: resource.to_owned(),
            bearer: bearer.to_owned(),
            items: Vec::new(),
            cursor: None,
        }
    }

    /// The request to send next.
    pub fn request(&self) -> (request: Request)
        ensures
            request@ == self@.request(),
    {
        let mut target = self.resource.clone();
        target.append("?");
        match &self.cursor {
            Some(cursor) => target.append(cursor.as_str()),
            None => target.append(FIRST_PAGE_QUERY),
        }
        api_request(target.as_str(), Method::Get, None, self.bearer.as_str())
    }

    /// Takes the page that answers the last request, or the failure of that
    /// request. A page adds its items to the collection and either links to
    /// the next page or ends the listing. A failure ends it at once, with
    /// the error alone.
    pub fn advance(self, reply: Result<Page, TransportError>) -> (progress: Progress)
        ensures
            progress@ == self@.advance(
                match reply {
                    Ok(page) => Ok(page@),
                    Err(error) => Err(error),
                },
            ),
    {
        match reply {
            Ok(page) => {
                let mut listing = self;
                let mut page = page;
                listing.items.append(&mut page.items);
                match page.next {
                    Some(link) => {
                        listing.cursor = Some(strip_leading(link.as_str(), '?'));
                        Progress::Continue(listing)
                    },
                    None => Progress::Finished(listing.items),
                }
            },
            Err(error) => Progress::Failed(error),
        }
    }

    /// Takes the reply to the last request as it came from the transport:
    /// reads the page out of a response and goes on as [`Listing::advance`]
    /// does.
    pub fn receive(self, reply: Result<Value, TransportError>) -> (progress: Progress)
        ensures
            progress@ == self@.advance(page_reply(reply)),
    {
        match reply {
            Ok(envelope) => self.advance(Ok(Page::read(&envelope))),
            Err(error) => self.advance(Err(error)),
        }
    }
}

} // verus!
