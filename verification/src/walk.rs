//! A listing from its first request to its end.
//!
//! [`walk`] is the loop that a caller runs around a
//! [`Listing`](crate::paginator::Listing), written as a function of the
//! replies the server gives. The proofs below say what that loop sends and
//! what it ends with.

use crate::json::{member, string_of};
use crate::paginator::{
    cursor_of, page_of, page_reply, ListingView, PageView, ProgressView,
    FIRST_PAGE_QUERY,
};
use crate::text::{
    lemma_leading_run, lemma_leading_run_is, lemma_without_leading_is_stripped,
    lemma_without_leading_keeps,
};
use crate::transport::{endpoint, request_for, Method, RequestView, TransportError};
use serde_json::Value;
use vstd::prelude::*;

verus! {

/// What a walk did: the requests it sent, in order, and where the listing
/// stood when the replies ran out or the listing ended.
pub struct Walk {
    pub sent: Seq<RequestView>,
    pub end: ProgressView,
}

/// Drives `listing` with `replies`: one request is sent per reply, for as long
/// as the listing goes on. Once it has finished or failed, nothing more is
/// sent and the replies left over are ignored.
pub open spec fn walk(listing: ListingView, replies: Seq<Result<PageView, TransportError>>) -> Walk
    decreases replies.len(),
{
    if replies.len() == 0 {
        Walk { sent: Seq::empty(), end: ProgressView::Continue(listing) }
    } else {
        match listing.advance(replies[0]) {
            ProgressView::Continue(next) => {
                let rest = walk(next, replies.drop_first());
                Walk { sent: seq![listing.request()] + rest.sent, end: rest.end }
            },
            end => Walk { sent: seq![listing.request()], end },
        }
    }
}

/// The replies of a server that answers every request with the next of
/// `pages`.
pub open spec fn served(pages: Seq<PageView>) -> Seq<Result<PageView, TransportError>> {
    Seq::new(pages.len(), |i: int| Ok(pages[i]))
}

/// The items of all `pages`: those of the first page, then those of the
/// second, and so on, each page's items in the page's own order.
pub open spec fn all_items(pages: Seq<PageView>) -> Seq<Value>
    decreases pages.len(),
{
    if pages.len() == 0 {
        Seq::empty()
    } else {
        pages.first().items + all_items(pages.drop_first())
    }
}

/// The number of items on all `pages` together.
pub open spec fn item_count(pages: Seq<PageView>) -> nat
    decreases pages.len(),
{
    if pages.len() == 0 {
        0
    } else {
        pages.first().items.len() + item_count(pages.drop_first())
    }
}

/// Every one of `pages` links to a successor.
pub open spec fn all_linked(pages: Seq<PageView>) -> bool {
    forall|i: int| 0 <= i < pages.len() ==> (#[trigger] pages[i]).next is Some
}

/// `pages` is one complete listing: each page but the last links to a
/// successor, and the last links to none.
pub open spec fn chained(pages: Seq<PageView>) -> bool {
    &&& pages.len() > 0
    &&& all_linked(pages.drop_last())
    &&& pages.last().next is None
}

/// The request that fetches page number `index` of `pages`, counted from
/// zero: the listing's own next request for the first page, and for any later
/// page a GET for the query behind the link of the page before it.
pub open spec fn page_request(listing: ListingView, pages: Seq<PageView>, index: int) -> RequestView {
    if index == 0 {
        listing.request()
    } else {
        request_for(
            listing.resource + "?"@ + cursor_of(pages[index - 1].next.unwrap()),
            Method::Get,
            None,
            listing.bearer,
        )
    }
}

/// The listing after `pages` that all linked to a successor.
pub open spec fn after_pages(listing: ListingView, pages: Seq<PageView>) -> ListingView {
    ListingView {
        resource: listing.resource,
        bearer: listing.bearer,
        items: listing.items + all_items(pages),
        cursor: if pages.len() == 0 {
            listing.cursor
        } else {
            Some(cursor_of(pages.last().next.unwrap()))
        },
    }
}

/// The items of a run of pages followed by one more page are the items of
/// the run followed by the items of that page.
pub proof fn lemma_all_items_push(pages: Seq<PageView>, page: PageView)
    ensures
        all_items(pages.push(page)) == all_items(pages) + page.items,
    decreases pages.len(),
{
    let longer = pages.push(page);
    if pages.len() == 0 {
        assert(longer.drop_first() =~= pages);
    } else {
        lemma_all_items_push(pages.drop_first(), page);
        assert(longer.drop_first() =~= pages.drop_first().push(page));
    }
    assert(all_items(longer) =~= all_items(pages) + page.items);
}

/// As many items come out of a run of pages as the pages hold together.
pub proof fn lemma_all_items_len(pages: Seq<PageView>)
    ensures
        all_items(pages).len() == item_count(pages),
    decreases pages.len(),
{
    if pages.len() > 0 {
        lemma_all_items_len(pages.drop_first());
    }
}

/// The collection keeps the order received: item `offset` of page `page`
/// stands behind all items of the pages before it, at the same offset.
pub proof fn law_items_in_order(pages: Seq<PageView>, page: int, offset: int)
    requires
        0 <= page < pages.len(),
        0 <= offset < pages[page].items.len(),
    ensures
        item_count(pages.take(page)) + offset < all_items(pages).len(),
        all_items(pages)[item_count(pages.take(page)) + offset] == pages[page].items[offset],
    decreases pages.len(),
{
    if page == 0 {
        assert(pages.take(0) =~= Seq::<PageView>::empty());
    } else {
        let rest = pages.drop_first();
        law_items_in_order(rest, page - 1, offset);
        assert(pages.take(page).drop_first() =~= rest.take(page - 1));
        assert(pages.take(page).first() == pages.first());
    }
}

proof fn lemma_walk_through(
    listing: ListingView,
    pages: Seq<PageView>,
    later: Seq<Result<PageView, TransportError>>,
)
    requires
        all_linked(pages),
    ensures
        walk(listing, served(pages) + later).end == walk(after_pages(listing, pages), later).end,
        walk(listing, served(pages) + later).sent == Seq::new(
            pages.len(),
            |i: int| page_request(listing, pages, i),
        ) + walk(after_pages(listing, pages), later).sent,
    decreases pages.len(),
{
    let replies = served(pages) + later;
    let through = Seq::new(pages.len(), |i: int| page_request(listing, pages, i));
    if pages.len() == 0 {
        assert(replies =~= later);
        assert(listing.items + all_items(pages) =~= listing.items);
        assert(after_pages(listing, pages) == listing);
        assert(through + walk(listing, later).sent =~= walk(listing, later).sent);
    } else {
        let first = pages[0];
        let rest = pages.drop_first();
        let next = listing.resumed(first, cursor_of(first.next.unwrap()));
        assert(replies[0] == Ok::<PageView, TransportError>(first));
        assert(listing.advance(replies[0]) == ProgressView::Continue(next));
        assert(replies.drop_first() =~= served(rest) + later);
        assert forall|i: int| 0 <= i < rest.len() implies (#[trigger] rest[i]).next is Some by {
            assert(rest[i] == pages[i + 1]);
        }
        lemma_walk_through(next, rest, later);
        assert((listing.items + first.items) + all_items(rest) =~= listing.items + all_items(
            pages,
        ));
        assert(after_pages(next, rest) == after_pages(listing, pages));
        let rest_through = Seq::new(rest.len(), |i: int| page_request(next, rest, i));
        assert(seq![listing.request()] + rest_through =~= through) by {
            assert forall|i: int| 0 <= i < pages.len() implies (seq![listing.request()]
                + rest_through)[i] == through[i] by {
                if i > 1 {
                    assert(rest[i - 2] == pages[i - 1]);
                }
            }
        }
        let tail = walk(after_pages(listing, pages), later).sent;
        assert(seq![listing.request()] + (rest_through + tail) =~= through + tail);
    }
}

/// Against a server that holds a listing as a chain of pages, a walk from
/// the start is complete: it sends one request per page and ends with the
/// items of all pages, page after page and within each page in the page's
/// order. The first request asks for the first page; each later one asks for
/// the query behind the link of the page before it. Once the last page is in,
/// nothing more is sent, whatever the server would have answered.
pub proof fn law_pagination_complete(
    resource: Seq<char>,
    bearer: Seq<char>,
    pages: Seq<PageView>,
    later: Seq<Result<PageView, TransportError>>,
)
    requires
        chained(pages),
    ensures
        walk(ListingView::start(resource, bearer), served(pages) + later).end
            == ProgressView::Finished(all_items(pages)),
        all_items(pages).len() == item_count(pages),
        walk(ListingView::start(resource, bearer), served(pages) + later).sent == Seq::new(
            pages.len(),
            |i: int| page_request(ListingView::start(resource, bearer), pages, i),
        ),
{
    let start = ListingView::start(resource, bearer);
    let head = pages.drop_last();
    let last = pages.last();
    let tail = seq![Ok::<PageView, TransportError>(last)] + later;
    lemma_walk_through(start, head, tail);
    assert(served(head) + tail =~= served(pages) + later);
    let before_last = after_pages(start, head);
    assert(tail[0] == Ok::<PageView, TransportError>(last));
    assert(walk(before_last, tail).sent == seq![before_last.request()]);
    lemma_all_items_push(head, last);
    assert(head.push(last) =~= pages);
    assert(before_last.items + last.items =~= all_items(pages));
    lemma_all_items_len(pages);
    let through = Seq::new(pages.len(), |i: int| page_request(start, pages, i));
    let head_through = Seq::new(head.len(), |i: int| page_request(start, head, i));
    assert(head_through + seq![before_last.request()] =~= through) by {
        assert forall|i: int| 0 <= i < pages.len() implies (head_through + seq![
            before_last.request(),
        ])[i] == through[i] by {
            if 0 < i < head.len() {
                assert(head[i - 1] == pages[i - 1]);
            }
            if i == head.len() && i > 0 {
                assert(head.last() == pages[i - 1]);
            }
        }
    }
}

/// The pages that a run of responses holds.
pub open spec fn pages_of(envelopes: Seq<Value>) -> Seq<PageView> {
    Seq::new(envelopes.len(), |i: int| page_of(envelopes[i]))
}

/// The replies of a server that answers every request with the next of
/// `envelopes`, each read as a page.
pub open spec fn answered(envelopes: Seq<Value>) -> Seq<Result<PageView, TransportError>> {
    Seq::new(envelopes.len(), |i: int| page_reply(Ok(envelopes[i])))
}

/// The same completeness, said of the responses themselves: where the pages
/// they hold form a chain, a walk that reads each response as it comes ends
/// with the items of all of them, in order, after one request per response.
pub proof fn law_pagination_complete_over_responses(
    resource: Seq<char>,
    bearer: Seq<char>,
    envelopes: Seq<Value>,
    later: Seq<Result<PageView, TransportError>>,
)
    requires
        chained(pages_of(envelopes)),
    ensures
        walk(ListingView::start(resource, bearer), answered(envelopes) + later).end
            == ProgressView::Finished(all_items(pages_of(envelopes))),
        walk(ListingView::start(resource, bearer), answered(envelopes) + later).sent.len()
            == envelopes.len(),
{
    assert(answered(envelopes) =~= served(pages_of(envelopes)));
    law_pagination_complete(resource, bearer, pages_of(envelopes), later);
}

/// A page without a link to a successor ends the listing: its items are
/// added, and no further request is sent, whatever replies would follow.
pub proof fn law_last_page_ends(
    listing: ListingView,
    page: PageView,
    later: Seq<Result<PageView, TransportError>>,
)
    requires
        page.next is None,
    ensures
        listing.advance(Ok(page)) == ProgressView::Finished(listing.items + page.items),
        walk(listing, seq![Ok::<PageView, TransportError>(page)] + later).sent == seq![
            listing.request(),
        ],
        walk(listing, seq![Ok::<PageView, TransportError>(page)] + later).end
            == ProgressView::Finished(listing.items + page.items),
{
    let replies = seq![Ok::<PageView, TransportError>(page)] + later;
    assert(replies[0] == Ok::<PageView, TransportError>(page));
}

/// A response holds no link to a successor, and so ends the listing it
/// belongs to, where it has no `links` member, where `links` has no `next`
/// member, and where `next` is not a string, as a JSON null is not.
pub proof fn law_response_without_link(listing: ListingView, envelope: Value)
    requires
        member(envelope, "links"@) matches Some(links) ==> (member(links, "next"@) matches Some(
            next,
        ) ==> string_of(next) is None),
    ensures
        page_of(envelope).next is None,
        listing.advance(page_reply(Ok(envelope))) == ProgressView::Finished(
            listing.items + page_of(envelope).items,
        ),
{
}

/// After a page that links to a successor, the next request asks for that
/// link: without the question marks in front of it, and otherwise character
/// for character. The query does not itself start with a question mark. A
/// link with one question mark in front loses just that one, and a link with
/// none is the query as it is.
pub proof fn law_cursor_passthrough(listing: ListingView, page: PageView, link: Seq<char>)
    requires
        page.next == Some(link),
    ensures
        listing.advance(Ok(page)) == ProgressView::Continue(
            listing.resumed(page, cursor_of(link)),
        ),
        listing.resumed(page, cursor_of(link)).query() == cursor_of(link),
        listing.resumed(page, cursor_of(link)).request().url == endpoint(
            listing.resource + "?"@ + cursor_of(link),
        ),
        cursor_of(link).len() > 0 ==> cursor_of(link)[0] != '?',
        link.len() > 0 && link[0] == '?' && (link.len() > 1 ==> link[1] != '?') ==> cursor_of(link)
            == link.drop_first(),
        link.len() == 0 || link[0] != '?' ==> cursor_of(link) == link,
{
    lemma_without_leading_is_stripped(link, '?');
    lemma_leading_run(link, '?');
    if link.len() > 0 && link[0] == '?' && (link.len() > 1 ==> link[1] != '?') {
        lemma_leading_run_is(link, '?', 1);
        assert(link.drop_first() =~= link.subrange(1, link.len() as int));
    }
    if link.len() == 0 || link[0] != '?' {
        lemma_without_leading_keeps(link, '?');
    }
}

/// Whatever the resource and the credential, the first request of a
/// listing asks for the resource with the query `all=true`.
pub proof fn law_first_request(resource: Seq<char>, bearer: Seq<char>)
    ensures
        ListingView::start(resource, bearer).query() == FIRST_PAGE_QUERY@,
        ListingView::start(resource, bearer).request() == request_for(
            resource + "?"@ + FIRST_PAGE_QUERY@,
            Method::Get,
            None,
            bearer,
        ),
        ListingView::start(resource, bearer).request().url == endpoint(
            resource + "?"@ + FIRST_PAGE_QUERY@,
        ),
        FIRST_PAGE_QUERY@ == seq!['a', 'l', 'l', '=', 't', 'r', 'u', 'e'],
{
    reveal_strlit("all=true");
    assert(FIRST_PAGE_QUERY@ =~= seq!['a', 'l', 'l', '=', 't', 'r', 'u', 'e']);
}

/// A response without a `data` member adds no item and does not fail the
/// listing: it goes on or ends as the response's link says, with the items
/// it had.
pub proof fn law_missing_data(listing: ListingView, envelope: Value)
    requires
        member(envelope, "data"@) is None,
    ensures
        page_of(envelope).items == Seq::<Value>::empty(),
        match listing.advance(page_reply(Ok(envelope))) {
            ProgressView::Continue(next) => next.items == listing.items,
            ProgressView::Finished(items) => items == listing.items,
            ProgressView::Failed(_) => false,
        },
{
    assert(listing.items + page_of(envelope).items =~= listing.items);
}

/// When a request fails, after any number of pages that were received in
/// full, the walk ends with that error and with none of the items collected
/// before it, and sends nothing more.
pub proof fn law_failure_ends(
    resource: Seq<char>,
    bearer: Seq<char>,
    pages: Seq<PageView>,
    error: TransportError,
    later: Seq<Result<PageView, TransportError>>,
)
    requires
        all_linked(pages),
    ensures
        walk(
            ListingView::start(resource, bearer),
            served(pages) + seq![Err::<PageView, TransportError>(error)] + later,
        ).end == ProgressView::Failed(error),
        walk(
            ListingView::start(resource, bearer),
            served(pages) + seq![Err::<PageView, TransportError>(error)] + later,
        ).sent.len() == pages.len() + 1,
{
    let start = ListingView::start(resource, bearer);
    let tail = seq![Err::<PageView, TransportError>(error)] + later;
    lemma_walk_through(start, pages, tail);
    assert(served(pages) + tail =~= served(pages) + seq![
        Err::<PageView, TransportError>(error),
    ] + later);
    assert(tail[0] == Err::<PageView, TransportError>(error));
}

} // verus!
