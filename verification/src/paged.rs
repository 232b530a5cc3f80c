//! The paging executor: drives a pageable endpoint page by page and
//! concatenates the results.

use vstd::prelude::*;
use vstd::string::*;

use crate::client::{spec_is_success, Client};
use crate::endpoint::{build_request, check_response, decode_document, Endpoint};
use crate::error::ApiError;
use crate::json::{json_parsed, FromJson, JsonValue};
use crate::query::Query;

verus! {

/// The fixed page size used purely to decide termination. It is policy of
/// this client, not protocol: the server is never asked for a page size.
pub const MAX_PAGE_SIZE: usize = 10;

/// How much of a paged listing to fetch.
#[derive(Debug, Clone, Copy, PartialEq, Eq, Structural)]
pub enum Pagination {
    /// Fetch every page.
    All,
}

impl Default for Pagination {
    fn default() -> (r: Self)
        ensures
            r == Pagination::All,
    {
        Pagination::All
    }
}

impl Pagination {
    /// The page-size limit this policy assumes.
    pub open spec fn spec_page_limit(self) -> int {
        MAX_PAGE_SIZE as int
    }

    /// The page-size limit this policy assumes.
    pub fn page_limit(self) -> (r: usize)
        ensures
            r == self.spec_page_limit(),
    {
        match self {
            Pagination::All => MAX_PAGE_SIZE,
        }
    }

    /// Whether the page just fetched was the last: it returned nothing, or
    /// fewer items than the page limit. Both are judged on the fetched
    /// page, never predicted.
    pub open spec fn spec_is_last_page(self, last_page_size: int) -> bool {
        last_page_size == 0 || last_page_size < self.spec_page_limit()
    }

    /// Whether the page just fetched was the last. A page of zero items
    /// ends the walk immediately, even as the very first page.
    pub fn is_last_page(self, last_page_size: usize) -> (r: bool)
        ensures
            r == self.spec_is_last_page(last_page_size as int),
    {
        if last_page_size == 0 {
            return true;
        }
        if last_page_size < self.page_limit() {
            return true;
        }
        false
    }
}

/// An empty page is always the last, whatever the policy: a fetch whose
/// very first page holds nothing ends at once.
pub proof fn lemma_empty_page_is_last(p: Pagination)
    ensures
        p.spec_is_last_page(0),
{
}

/// A full page is never the last: the walk goes on exactly while pages
/// come back with at least the page limit of items.
pub proof fn lemma_full_page_continues(p: Pagination, size: int)
    ensures
        size >= p.spec_page_limit() ==> !p.spec_is_last_page(size),
{
}

/// A pageable endpoint together with a pagination policy.
#[derive(Debug)]
pub struct Paged<E> {
    endpoint: E,
    pagination: Pagination,
}

impl<E> Paged<E> {
    /// The wrapped endpoint.
    pub closed spec fn endpoint_spec(&self) -> E {
        self.endpoint
    }

    /// The pagination policy.
    pub closed spec fn pagination_spec(&self) -> Pagination {
        self.pagination
    }
}

/// Walk every page of a pageable endpoint.
pub fn paged<E>(endpoint: E, pagination: Pagination) -> (r: Paged<E>)
    ensures
        r.endpoint_spec() == endpoint,
        r.pagination_spec() == pagination,
{
    Paged { endpoint, pagination }
}

/// A descriptor that declares itself safe to drive through the paging
/// executor; a pure capability tag.
pub trait Pageable {

}

/// The in-order concatenation of pages.
pub open spec fn spec_concat_pages<T>(pages: Seq<Vec<T>>) -> Seq<T>
    decreases pages.len(),
{
    if pages.len() == 0 {
        Seq::empty()
    } else {
        spec_concat_pages(pages.drop_last()) + pages.last()@
    }
}

/// Whether a document is what some success-status response parsed to.
pub open spec fn spec_parsed_success(doc: JsonValue) -> bool {
    exists|status: u16, bytes: Seq<u8>|
        #![trigger spec_is_success(status), json_parsed(bytes)]
        spec_is_success(status) && json_parsed(bytes) == Some(doc)
}

/// One complete paged walk under policy `p`: each round's document parsed
/// out of some success-status response and read as that round's page;
/// every page before the last was full enough to continue and the last
/// was terminal; the outcome is the pages' in-order concatenation.
pub open spec fn spec_page_walk<T: FromJson>(
    p: Pagination,
    docs: Seq<JsonValue>,
    pages: Seq<Vec<T>>,
    out: Seq<T>,
) -> bool {
    &&& docs.len() == pages.len()
    &&& docs.len() >= 1
    &&& forall|i: int| 0 <= i < docs.len() ==> spec_parsed_success(#[trigger] docs[i])
    &&& forall|i: int|
        0 <= i < docs.len() ==> <Vec<T> as FromJson>::decodes(#[trigger] docs[i], pages[i])
    &&& forall|i: int|
        0 <= i < pages.len() - 1 ==> !p.spec_is_last_page((#[trigger] pages[i])@.len() as int)
    &&& p.spec_is_last_page(pages.last()@.len() as int)
    &&& out == spec_concat_pages(pages)
}

/// Whether an outcome is the concatenation of some complete paged walk.
pub open spec fn spec_some_page_walk<T: FromJson>(p: Pagination, out: Seq<T>) -> bool {
    exists|docs: Seq<JsonValue>, pages: Seq<Vec<T>>|
        #[trigger] spec_page_walk::<T>(p, docs, pages, out)
}

impl<E, T, C> Query<Vec<T>, C> for Paged<E> where
    E: Endpoint + Pageable,
    T: FromJson,
    C: Client,
 {
    /// Fetch pages sequentially, starting at page 0 and incrementing by
    /// one: each round sends the endpoint's request with a `page` query
    /// parameter appended after the endpoint's own, checks the response
    /// as a plain query would, reads the page as a list, and appends it.
    /// The walk ends with the first page that is empty or shorter than
    /// the page limit. Any page's failure aborts the whole fetch;
    /// partial results are never returned. The transport itself cannot be
    /// named here, so the clause below says what holds of every success
    /// whatever came back: the result is exactly the in-order
    /// concatenation of a [`spec_page_walk`].
    fn query(&self, client: &C) -> (r: Result<Vec<T>, ApiError<C::Error>>)
        ensures
            r matches Ok(out) ==> spec_some_page_walk::<T>(self.pagination_spec(), out@),
    {
        let path = self.endpoint.url();
        let base = match client.rest_endpoint(path.as_str()) {
            Ok(u) => u,
            Err(e) => {
                return Err(e);
            },
        };
        let mut results: Vec<T> = Vec::new();
        let mut page_num: u64 = 0;
        let ghost mut docs: Seq<JsonValue> = Seq::empty();
        let ghost mut pages: Seq<Vec<T>> = Seq::empty();
        loop
            invariant_except_break
                forall|i: int|
                    0 <= i < pages.len() ==> !self.pagination.spec_is_last_page(
                        (#[trigger] pages[i])@.len() as int,
                    ),
            invariant
                page_num as int * 10 <= results@.len(),
                results@.len() <= usize::MAX,
                self.pagination.spec_page_limit() == 10,
                docs.len() == pages.len(),
                forall|i: int| 0 <= i < docs.len() ==> spec_parsed_success(#[trigger] docs[i]),
                forall|i: int|
                    0 <= i < docs.len() ==> <Vec<T> as FromJson>::decodes(
                        #[trigger] docs[i],
                        pages[i],
                    ),
                results@ == spec_concat_pages(pages),
            ensures
                spec_page_walk::<T>(self.pagination_spec(), docs, pages, results@),
            decreases usize::MAX as int - page_num as int,
        {
            let mut params = self.endpoint.parameters();
            params.push("page", &page_num);
            let mut url = base.clone();
            params.add_to_url(&mut url);
            let request = build_request(&self.endpoint, url);
            let body = match self.endpoint.body() {
                Ok(Some(b)) => b,
                Ok(None) => Vec::new(),
                Err(e) => {
                    return Err(ApiError::Body { source: e });
                },
            };
            let response = match client.rest(&request, &body) {
                Ok(resp) => resp,
                Err(e) => {
                    return Err(e);
                },
            };
            let ghost status = response.status;
            let ghost bytes = response.body@;
            let value = match check_response::<C::Error>(response) {
                Ok(v) => v,
                Err(e) => {
                    return Err(e);
                },
            };
            let mut page: Vec<T> = match decode_document::<Vec<T>, C::Error>(&value) {
                Ok(p) => p,
                Err(e) => {
                    return Err(e);
                },
            };
            let ghost page_snapshot = page;
            let page_len = page.len();
            results.append(&mut page);
            let total = results.len();
            let ghost docs_before = docs;
            let ghost pages_before = pages;
            proof {
                docs = docs.push(value);
                pages = pages.push(page_snapshot);
                assert(pages.drop_last() =~= pages_before);
                assert(pages.last() == page_snapshot);
                assert(spec_concat_pages(pages) == spec_concat_pages(pages_before)
                    + page_snapshot@);
                assert(results@ =~= spec_concat_pages(pages));
                assert(spec_is_success(status) && json_parsed(bytes) == Some(value));
                assert(spec_parsed_success(value));
                assert(<Vec<T> as FromJson>::decodes(value, page_snapshot));
                assert(forall|i: int|
                    0 <= i < docs.len() ==> spec_parsed_success(#[trigger] docs[i]));
                assert(forall|i: int|
                    0 <= i < docs.len() ==> <Vec<T> as FromJson>::decodes(
                        #[trigger] docs[i],
                        pages[i],
                    ));
            }
            if self.pagination.is_last_page(page_len) {
                proof {
                    assert(page_snapshot@.len() == page_len);
                    assert(forall|i: int|
                        0 <= i < pages.len() - 1 ==> !self.pagination.spec_is_last_page(
                            (#[trigger] pages[i])@.len() as int,
                        ));
                    assert(spec_page_walk::<T>(self.pagination_spec(), docs, pages, results@));
                }
                break;
            }
            proof {
                assert(page_len >= 10);
                assert((page_num as int + 1) * 10 <= total);
                assert(page_num as int <= page_num as int * 10);
            }
            page_num = page_num + 1;
        }
        proof {
            assert(spec_page_walk::<T>(self.pagination_spec(), docs, pages, results@));
            assert(spec_some_page_walk::<T>(self.pagination_spec(), results@));
        }
        Ok(results)
    }
}

} // verus!
