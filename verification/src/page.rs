//! Cursor pagination: the inputs of a list call, the request for one page
//! and the page read from its response.
use crate::client::{
    clone_opt_string, opt_str, pairs_view, same_response, Client, ClientSettings, Method, Request,
    RequestView, Response,
};
use crate::error::Error;
use crate::json::{clone_entries, entries_model, str_value, Json, JsonValue};
use crate::text::{decimal, spec_decimal};
use vstd::prelude::*;
use vstd::string::StringExecFns;

verus! {

/// The API's hard page-size cap.
pub const MAX_PER_PAGE: u32 = 100;

/// Shared cursor-pagination inputs. A `limit` of `None` means
/// [`MAX_PER_PAGE`].
#[derive(Debug)]
pub struct ListParams {
    /// Page size, 1..=100.
    pub limit: Option<u32>,
    /// Opaque cursor from a previous page's `next_cursor`.
    pub cursor: Option<String>,
}

impl Default for ListParams {
    fn default() -> (p: Self)
        ensures
            p.limit is None,
            p.cursor is None,
    {
        ListParams { limit: None, cursor: None }
    }
}

impl Clone for ListParams {
    fn clone(&self) -> (p: Self)
        ensures
            p.limit == self.limit,
            p.cursor == self.cursor,
    {
        ListParams { limit: self.limit, cursor: clone_opt_string(&self.cursor) }
    }
}

/// The page size a list call asks for.
pub open spec fn effective_limit(limit: Option<u32>) -> u32 {
    match limit {
        Some(l) => l,
        None => MAX_PER_PAGE,
    }
}

/// The message of the error for a page size out of `1..=100`.
pub open spec fn limit_message(limit: u32) -> Seq<char> {
    "limit must be between 1 and "@ + spec_decimal(MAX_PER_PAGE as nat) + " (got "@ + spec_decimal(
        limit as nat,
    ) + ")"@
}

/// The query of a page request: the endpoint's filters, then `limit`,
/// then `cursor` when there is one.
pub open spec fn page_query(
    base_query: Seq<(Seq<char>, Seq<char>)>,
    limit: u32,
    cursor: Option<Seq<char>>,
) -> Seq<(Seq<char>, Seq<char>)> {
    let with_limit = base_query.push(("limit"@, spec_decimal(limit as nat)));
    match cursor {
        Some(c) => with_limit.push(("cursor"@, c)),
        None => with_limit,
    }
}

/// The request for one page of a list endpoint, with what is needed to
/// read the page from its response.
#[derive(Debug)]
pub struct PageRequest {
    /// The endpoint's path.
    pub path: String,
    /// The endpoint's filters.
    pub base_query: Vec<(String, String)>,
    /// The page size.
    pub limit: u32,
    /// The cursor the page starts at.
    pub cursor: Option<String>,
    /// The `GET` request to send.
    pub request: Request,
}

/// The view of a [`PageRequest`].
pub struct PageRequestView {
    pub path: Seq<char>,
    pub base_query: Seq<(Seq<char>, Seq<char>)>,
    pub limit: u32,
    pub cursor: Option<Seq<char>>,
    pub request: RequestView,
}

impl View for PageRequest {
    type V = PageRequestView;

    open spec fn view(&self) -> PageRequestView {
        PageRequestView {
            path: self.path@,
            base_query: pairs_view(self.base_query@),
            limit: self.limit,
            cursor: opt_str(self.cursor),
            request: self.request@,
        }
    }
}

/// The request for the page of `path` with `base_query`, `limit` and
/// `cursor` that `client` makes.
pub open spec fn spec_page_request(
    client: ClientSettings,
    path: Seq<char>,
    base_query: Seq<(Seq<char>, Seq<char>)>,
    limit: u32,
    cursor: Option<Seq<char>>,
) -> PageRequestView {
    PageRequestView {
        path,
        base_query,
        limit,
        cursor,
        request: client.request(Method::Get, path, page_query(base_query, limit, cursor), None),
    }
}

/// What a list call returns for `params`: the first page's request when
/// the page size is in `1..=100`, a configuration error otherwise.
pub open spec fn listed(
    res: Result<PageRequest, Error>,
    client: ClientSettings,
    path: Seq<char>,
    base_query: Seq<(Seq<char>, Seq<char>)>,
    params: ListParams,
) -> bool {
    let limit = effective_limit(params.limit);
    &&& res is Ok <==> 1 <= limit <= MAX_PER_PAGE
    &&& res matches Err(e) ==> e is Configuration && e->Configuration_0@ == limit_message(limit)
    &&& res matches Ok(p) ==> p@ == spec_page_request(
        client,
        path,
        base_query,
        limit,
        opt_str(params.cursor),
    )
}

fn clone_pairs(pairs: &[(String, String)]) -> (r: Vec<(String, String)>)
    ensures
        r@ == pairs@,
{
    let mut r: Vec<(String, String)> = Vec::new();
    let n = pairs.len();
    for i in 0..n
        invariant
            n == pairs@.len(),
            r@ == pairs@.take(i as int),
    {
        r.push((pairs[i].0.clone(), pairs[i].1.clone()));
        assert(r@ =~= pairs@.take(i + 1));
    }
    assert(pairs@.take(n as int) =~= pairs@);
    r
}

fn clone_opt(s: Option<&str>) -> (r: Option<String>)
    ensures
        opt_str(r) == match s {
            Some(s) => Some(s@),
            None => None,
        },
{
    match s {
        Some(s) => Some(String::from_str(s)),
        None => None,
    }
}

/// The request for one page: the endpoint's filters followed by `limit`
/// and, when given, `cursor`.
pub fn fetch_page(
    client: &Client,
    path: &str,
    base_query: &[(String, String)],
    limit: u32,
    cursor: Option<&str>,
) -> (p: PageRequest)
    ensures
        p@ == spec_page_request(
            client@,
            path@,
            pairs_view(base_query@),
            limit,
            match cursor {
                Some(c) => Some(c@),
                None => None,
            },
        ),
{
    let mut query = clone_pairs(base_query);
    query.push((String::from_str("limit"), decimal(limit as u64)));
    match cursor {
        Some(c) => query.push((String::from_str("cursor"), String::from_str(c))),
        None => {},
    }
    let ghost cv = match cursor {
        Some(c) => Some(c@),
        None => None,
    };
    assert(pairs_view(query@) =~= page_query(pairs_view(base_query@), limit, cv));
    let request = client.get(path, query.as_slice());
    PageRequest {
        path: String::from_str(path),
        base_query: clone_pairs(base_query),
        limit,
        cursor: clone_opt(cursor),
        request,
    }
}

/// The first page's request of a list call. The page size defaults to
/// [`MAX_PER_PAGE`]; one outside `1..=100` is refused before any request.
pub fn list_page(
    client: &Client,
    path: &str,
    base_query: Vec<(String, String)>,
    params: &ListParams,
) -> (res: Result<PageRequest, Error>)
    ensures
        listed(res, client@, path@, pairs_view(base_query@), *params),
{
    let limit = match params.limit {
        Some(l) => l,
        None => MAX_PER_PAGE,
    };
    if limit == 0 || limit > MAX_PER_PAGE {
        let mut message = String::from_str("limit must be between 1 and ");
        let max = decimal(MAX_PER_PAGE as u64);
        message.append(max.as_str());
        message.append(" (got ");
        let got = decimal(limit as u64);
        message.append(got.as_str());
        message.append(")");
        return Err(Error::Configuration(message));
    }
    let cursor = match &params.cursor {
        Some(c) => Some(c.as_str()),
        None => None,
    };
    Ok(fetch_page(client, path, base_query.as_slice(), limit, cursor))
}

/// The rows of a page: the objects among `items`, in order; other values
/// are skipped.
pub open spec fn object_rows(items: Seq<JsonValue>) -> Seq<Seq<(Seq<char>, Json)>>
    decreases items.len(),
{
    if items.len() == 0 {
        Seq::empty()
    } else {
        let rest = object_rows(items.drop_last());
        match items.last() {
            JsonValue::Object(entries) => rest.push(entries_model(entries@)),
            _ => rest,
        }
    }
}

/// The rows of a page body: the objects of its `data` array (none when
/// `data` is missing or not an array).
pub open spec fn page_rows(body: JsonValue) -> Seq<Seq<(Seq<char>, Json)>> {
    match body.field("data"@) {
        Some(JsonValue::Array(items)) => object_rows(items@),
        _ => Seq::empty(),
    }
}

/// The `has_more` flag of a page body (`false` when missing or not a
/// boolean).
pub open spec fn page_has_more(body: JsonValue) -> bool {
    match body.field("has_more"@) {
        Some(JsonValue::Bool(b)) => b,
        _ => false,
    }
}

/// The `next_cursor` of a page body (none when missing or not a string).
pub open spec fn page_next_cursor(body: JsonValue) -> Option<Seq<char>> {
    str_value(body.field("next_cursor"@))
}

/// The model of a list of rows.
pub open spec fn rows_model(rows: Seq<Vec<(String, JsonValue)>>) -> Seq<Seq<(Seq<char>, Json)>> {
    rows.map_values(|row: Vec<(String, JsonValue)>| entries_model(row@))
}

fn collect_object_rows(items: &Vec<JsonValue>) -> (rows: Vec<Vec<(String, JsonValue)>>)
    ensures
        rows_model(rows@) == object_rows(items@),
{
    let mut rows: Vec<Vec<(String, JsonValue)>> = Vec::new();
    let n = items.len();
    for i in 0..n
        invariant
            n == items@.len(),
            rows_model(rows@) == object_rows(items@.take(i as int)),
    {
        assert(items@.take(i + 1).drop_last() =~= items@.take(i as int));
        assert(items@.take(i + 1).last() == items@[i as int]);
        match items[i].as_object() {
            Some(entries) => {
                let row = clone_entries(entries);
                rows.push(row);
                assert(rows_model(rows@) =~= object_rows(items@.take(i + 1)));
            },
            None => {
                assert(rows_model(rows@) =~= object_rows(items@.take(i + 1)));
            },
        }
    }
    assert(items@.take(n as int) =~= items@);
    rows
}

/// Where a page comes from: the client, the endpoint, its filters and the
/// page size.
pub struct PageSource {
    pub client: ClientSettings,
    pub path: Seq<char>,
    pub base_query: Seq<(Seq<char>, Seq<char>)>,
    pub limit: u32,
}

/// One page of a cursor-paginated list endpoint:
/// `{ "data": [...], "has_more": bool, "next_cursor": string|null }`.
pub struct Page {
    /// The rows on this page: untyped `snake_case` objects, as-is from the
    /// API.
    pub data: Vec<Vec<(String, JsonValue)>>,
    /// Whether another page follows this one.
    pub has_more: bool,
    /// Cursor for the following page.
    pub next_cursor: Option<String>,
    /// The underlying API response.
    pub response: Response,
    client: Client,
    path: String,
    base_query: Vec<(String, String)>,
    limit: u32,
}

/// The view of a [`Page`].
pub struct PageView {
    pub data: Seq<Seq<(Seq<char>, Json)>>,
    pub has_more: bool,
    pub next_cursor: Option<Seq<char>>,
    pub response: Response,
    pub source: PageSource,
}

impl View for Page {
    type V = PageView;

    closed spec fn view(&self) -> PageView {
        PageView {
            data: rows_model(self.data@),
            has_more: self.has_more,
            next_cursor: opt_str(self.next_cursor),
            response: self.response,
            source: PageSource {
                client: self.client@,
                path: self.path@,
                base_query: pairs_view(self.base_query@),
                limit: self.limit,
            },
        }
    }
}

impl Page {

    /// Reads the page that `request` asked for from its response: the
    /// objects of `data`, `has_more` (default `false`) and `next_cursor`.
    pub fn from_response(client: &Client, request: PageRequest, response: Response) -> (page: Page)
        ensures
            page@.response == response,
            page@.data == page_rows(response.body),
            page@.has_more == page_has_more(response.body),
            page@.next_cursor == page_next_cursor(response.body),
            page@.source == (PageSource {
                client: client@,
                path: request@.path,
                base_query: request@.base_query,
                limit: request.limit,
            }),
    {
        let data = match response.body.get("data") {
            Some(v) => match v.as_array() {
                Some(items) => collect_object_rows(items),
                None => Vec::new(),
            },
            None => Vec::new(),
        };
        assert(rows_model(data@) =~= page_rows(response.body));
        let has_more = match response.body.get("has_more") {
            Some(v) => match v.as_bool() {
                Some(b) => b,
                None => false,
            },
            None => false,
        };
        let next_cursor = match response.body.get("next_cursor") {
            Some(v) => match v.as_str() {
                Some(s) => Some(s.clone()),
                None => None,
            },
            None => None,
        };
        Page {
            data,
            has_more,
            next_cursor,
            response,
            client: client.clone(),
            path: request.path,
            base_query: request.base_query,
            limit: request.limit,
        }
    }

    /// The request for the following page, or `None` when this is the
    /// last one (`has_more` is false or there is no `next_cursor`). It
    /// repeats this page's endpoint, filters and page size, from
    /// `next_cursor`.
    pub fn next(&self) -> (r: Option<PageRequest>)
        ensures
            r is Some <==> (self@.has_more && self@.next_cursor is Some),
            r matches Some(p) ==> p@ == spec_page_request(
                self@.source.client,
                self@.source.path,
                self@.source.base_query,
                self@.source.limit,
                self@.next_cursor,
            ),
    {
        match (&self.next_cursor, self.has_more) {
            (Some(cursor), true) => Some(
                fetch_page(
                    &self.client,
                    self.path.as_str(),
                    self.base_query.as_slice(),
                    self.limit,
                    Some(cursor.as_str()),
                ),
            ),
            _ => None,
        }
    }
}

fn clone_rows(rows: &Vec<Vec<(String, JsonValue)>>) -> (r: Vec<Vec<(String, JsonValue)>>)
    ensures
        rows_model(r@) == rows_model(rows@),
{
    let mut r: Vec<Vec<(String, JsonValue)>> = Vec::new();
    let n = rows.len();
    for i in 0..n
        invariant
            n == rows@.len(),
            r@.len() == i,
            forall|j: int| 0 <= j < i ==> entries_model((#[trigger] r@[j])@) == entries_model(rows@[j]@),
    {
        let row = clone_entries(&rows[i]);
        r.push(row);
    }
    assert(rows_model(r@) =~= rows_model(rows@));
    r
}

impl Clone for Page {
    fn clone(&self) -> (r: Self)
        ensures
            r@.data == self@.data,
            r@.has_more == self@.has_more,
            r@.next_cursor == self@.next_cursor,
            same_response(r@.response, self@.response),
            r@.source == self@.source,
    {
        Page {
            data: clone_rows(&self.data),
            has_more: self.has_more,
            next_cursor: clone_opt_string(&self.next_cursor),
            response: self.response.clone(),
            client: self.client.clone(),
            path: self.path.clone(),
            base_query: clone_pairs(self.base_query.as_slice()),
            limit: self.limit,
        }
    }
}

/// Whether `requests` and `pages` are a walk through a listing: page `i`
/// was read from request `i`, and each later request is what the page
/// before it returned from [`Page::next`].
pub open spec fn is_page_walk(requests: Seq<PageRequestView>, pages: Seq<PageView>) -> bool {
    &&& requests.len() == pages.len() || requests.len() == pages.len() + 1
    &&& forall|i: int|
        0 <= i < pages.len() ==> {
            &&& (#[trigger] pages[i]).source.path == requests[i].path
            &&& pages[i].source.base_query == requests[i].base_query
            &&& pages[i].source.limit == requests[i].limit
        }
    &&& forall|i: int|
        1 <= i < requests.len() ==> {
            &&& pages[i - 1].has_more
            &&& pages[i - 1].next_cursor is Some
            &&& #[trigger] requests[i] == spec_page_request(
                pages[i - 1].source.client,
                pages[i - 1].source.path,
                pages[i - 1].source.base_query,
                pages[i - 1].source.limit,
                pages[i - 1].next_cursor,
            )
        }
}

proof fn lemma_walk_keeps_listing(
    requests: Seq<PageRequestView>,
    pages: Seq<PageView>,
    i: int,
)
    requires
        is_page_walk(requests, pages),
        0 <= i < requests.len(),
    ensures
        requests[i].path == requests[0].path,
        requests[i].base_query == requests[0].base_query,
        requests[i].limit == requests[0].limit,
    decreases i,
{
    if i > 0 {
        lemma_walk_keeps_listing(requests, pages, i - 1);
        assert(requests[i] == spec_page_request(
            pages[i - 1].source.client,
            pages[i - 1].source.path,
            pages[i - 1].source.base_query,
            pages[i - 1].source.limit,
            pages[i - 1].next_cursor,
        ));
        assert(pages[i - 1].source.path == requests[i - 1].path);
    }
}

/// Following `next()` from page to page never leaves the listing: every
/// request of the walk has the first request's path, filters and page
/// size, and every request after the first asks, through the client that
/// read the page before it, for exactly the filters, then `limit`, then
/// that page's `next_cursor`.
pub proof fn lemma_page_walk(requests: Seq<PageRequestView>, pages: Seq<PageView>)
    requires
        is_page_walk(requests, pages),
        requests.len() > 0,
    ensures
        forall|i: int|
            0 <= i < requests.len() ==> {
                &&& (#[trigger] requests[i]).path == requests[0].path
                &&& requests[i].base_query == requests[0].base_query
                &&& requests[i].limit == requests[0].limit
            },
        forall|i: int|
            1 <= i < requests.len() ==> {
                &&& (#[trigger] requests[i]).cursor == pages[i - 1].next_cursor
                &&& pages[i - 1].next_cursor is Some
                &&& requests[i].request == pages[i - 1].source.client.request(
                    Method::Get,
                    requests[0].path,
                    page_query(requests[0].base_query, requests[0].limit, pages[i - 1].next_cursor),
                    None,
                )
            },
{
    assert forall|i: int| 0 <= i < requests.len() implies {
        &&& (#[trigger] requests[i]).path == requests[0].path
        &&& requests[i].base_query == requests[0].base_query
        &&& requests[i].limit == requests[0].limit
    } by {
        lemma_walk_keeps_listing(requests, pages, i);
    }
    assert forall|i: int| 1 <= i < requests.len() implies {
        &&& (#[trigger] requests[i]).cursor == pages[i - 1].next_cursor
        &&& pages[i - 1].next_cursor is Some
        &&& requests[i].request == pages[i - 1].source.client.request(
            Method::Get,
            requests[0].path,
            page_query(requests[0].base_query, requests[0].limit, pages[i - 1].next_cursor),
            None,
        )
    } by {
        lemma_walk_keeps_listing(requests, pages, i - 1);
        assert(pages[i - 1].source.path == requests[i - 1].path);
    }
}

/// The rows of two runs of elements, one after the other, are the rows of
/// the first followed by the rows of the second; a single object gives its
/// own row, any other single value none. So the rows of a page are its
/// objects, in the order the API sent them.
pub proof fn law_object_rows(a: Seq<JsonValue>, b: Seq<JsonValue>, v: JsonValue)
    ensures
        object_rows(a + b) == object_rows(a) + object_rows(b),
        object_rows(seq![v]) == match v {
            JsonValue::Object(entries) => seq![entries_model(entries@)],
            _ => Seq::empty(),
        },
    decreases b.len(),
{
    assert(seq![v].drop_last() =~= Seq::<JsonValue>::empty());
    assert(object_rows(Seq::<JsonValue>::empty()) =~= Seq::empty());
    if b.len() == 0 {
        assert(a + b =~= a);
        assert(object_rows(a) + object_rows(b) =~= object_rows(a));
    } else {
        law_object_rows(a, b.drop_last(), v);
        assert((a + b).drop_last() =~= a + b.drop_last());
        assert((a + b).last() == b.last());
        assert(object_rows(a + b) =~= object_rows(a) + object_rows(b));
    }
}

/// When every element of `data` is an object, the page has one row per
/// element, in order: row `i` is the members of element `i`.
pub proof fn law_all_object_rows(items: Seq<JsonValue>)
    requires
        forall|i: int| 0 <= i < items.len() ==> (#[trigger] items[i]) is Object,
    ensures
        object_rows(items).len() == items.len(),
        forall|i: int|
            0 <= i < items.len() ==> #[trigger] object_rows(items)[i] == entries_model(
                items[i]->Object_0@,
            ),
    decreases items.len(),
{
    if items.len() > 0 {
        let p = items.drop_last();
        assert forall|i: int| 0 <= i < p.len() implies (#[trigger] p[i]) is Object by {
            assert(p[i] == items[i]);
        }
        law_all_object_rows(p);
        assert(items[items.len() - 1] is Object);
        assert forall|i: int| 0 <= i < items.len() implies #[trigger] object_rows(items)[i]
            == entries_model(items[i]->Object_0@) by {
            if i < p.len() {
                assert(p[i] == items[i]);
            }
        }
    }
}

/// The page size of a list call, with the bounds written out: an explicit
/// size `l` is accepted exactly when `1 <= l <= 100`, and then the first
/// page's request asks for `l` rows; without one the request asks for 100.
/// A refused size is answered with a configuration error.
pub proof fn law_list_page_size(
    res: Result<PageRequest, Error>,
    client: ClientSettings,
    path: Seq<char>,
    base_query: Seq<(Seq<char>, Seq<char>)>,
    params: ListParams,
)
    requires
        listed(res, client, path, base_query, params),
    ensures
        params.limit matches Some(l) ==> (res is Ok <==> 1 <= l <= 100),
        params.limit matches Some(l) ==> (res matches Ok(p) ==> p@.limit == l),
        params.limit is None ==> (res matches Ok(p) && p@.limit == 100),
        res matches Err(e) ==> e is Configuration,
        res matches Ok(p) ==> p@.path == path && p@.base_query == base_query && p@.cursor
            == opt_str(params.cursor),
{
}

} // verus!
