//! One page of search results: the query that produced it, the echoed
//! request scalars, and the decoded items in server order. The container is
//! an immutable snapshot, not a cursor; advancing pagination is the caller's
//! business. The conversion function maps a page, item by item and in order,
//! into a page of another element type — the shape an embedding host runtime
//! is handed, all scalars copied, no item dropped or reordered.

use vstd::prelude::*;

verus! {

/// One page of search results together with the request parameters that
/// produced it.
pub struct PagedSearchResult<T> {
    /// The query string the page was produced for.
    pub query: String,
    /// The offset of the first item of this page within the full match.
    pub offset: u32,
    /// The page-size limit the request asked for.
    pub limit: u32,
    /// The server's full-match count, independent of this page's length.
    pub total: u32,
    /// The decoded items of this page, in server order.
    pub results: Vec<T>,
}

impl<T> PagedSearchResult<T> {
    /// A well-formed page never holds more items than its limit.
    pub open spec fn wf(self) -> bool {
        self.results@.len() <= self.limit as int
    }

    /// Wrap one fully decoded page. A caller handing in more items than
    /// `limit` allows is a decoder bug; the wrapper does not re-check the
    /// page at run time, it demands a well-formed one.
    pub fn new(query: String, offset: u32, limit: u32, total: u32, results: Vec<T>) -> (page:
        PagedSearchResult<T>)
        requires
            results@.len() <= limit as int,
        ensures
            page.wf(),
            page.query@ == query@,
            page.offset == offset,
            page.limit == limit,
            page.total == total,
            page.results@ == results@,
    {
        PagedSearchResult { query, offset, limit, total, results }
    }
}

/// Map a page into a page of another element type, as the embedding
/// conversion boundary requires: every scalar field is copied by value, and
/// the item sequence of the result has the same length as the source's, each
/// item the image of the source item at the same position. Nothing is
/// exposed until every item is mapped, so no partially populated page can
/// escape.
pub fn convert_page<T, U, F: Fn(T) -> U>(page: PagedSearchResult<T>, f: F) -> (converted:
    PagedSearchResult<U>)
    requires
        forall|i: int| 0 <= i < page.results@.len() ==> call_requires(f, (page.results@[i],)),
    ensures
        converted.query@ == page.query@,
        converted.offset == page.offset,
        converted.limit == page.limit,
        converted.total == page.total,
        converted.results@.len() == page.results@.len(),
        forall|i: int|
            0 <= i < converted.results@.len() ==> call_ensures(
                f,
                (page.results@[i],),
                #[trigger] converted.results@[i],
            ),
        page.wf() ==> converted.wf(),
{
    let PagedSearchResult { query, offset, limit, total, results } = page;
    let ghost source: Seq<T> = results@;
    let mut remaining = results;
    let mut mapped: Vec<U> = Vec::new();
    while remaining.len() > 0
        invariant
            mapped@.len() + remaining@.len() == source.len(),
            remaining@ == source.subrange(mapped@.len() as int, source.len() as int),
            forall|i: int| 0 <= i < source.len() ==> call_requires(f, (source[i],)),
            forall|i: int|
                0 <= i < mapped@.len() ==> call_ensures(f, (source[i],), #[trigger] mapped@[i]),
        decreases remaining@.len(),
    {
        let item = remaining.remove(0);
        proof {
            assert(item == source[mapped@.len() as int]);
            assert(remaining@ =~= source.subrange(mapped@.len() as int + 1, source.len() as int));
        }
        let image = f(item);
        mapped.push(image);
    }
    PagedSearchResult { query, offset, limit, total, results: mapped }
}

} // verus!
