//! Pagination parameters and paginated responses for repositories.

use vstd::prelude::*;

verus! {

/// The largest page size that `PaginationParams::new` lets through.
pub const MAX_PAGE_SIZE: i64 = 100;

/// The page size of `PaginationParams::default`.
pub const DEFAULT_PAGE_SIZE: i64 = 20;

/// The page size that `PaginationParams::new` keeps for a requested `limit`:
/// the request itself, capped at `MAX_PAGE_SIZE`.
pub open spec fn capped_limit(limit: i64) -> i64 {
    if limit < MAX_PAGE_SIZE { limit } else { MAX_PAGE_SIZE }
}

/// A requested page size passes through unchanged up to `MAX_PAGE_SIZE`
/// and is cut to it above; capping twice is the same as capping once.
pub proof fn lemma_page_size_capped(limit: i64)
    ensures
        capped_limit(limit) <= MAX_PAGE_SIZE,
        limit <= MAX_PAGE_SIZE ==> capped_limit(limit) == limit,
        limit > MAX_PAGE_SIZE ==> capped_limit(limit) == MAX_PAGE_SIZE,
        capped_limit(capped_limit(limit)) == capped_limit(limit),
{
}

/// Pagination parameters.
#[derive(Debug, Clone)]
pub struct PaginationParams {
    /// Page offset (zero-indexed)
    pub offset: i64,
    /// Number of items per page
    pub limit: i64,
    /// Optional sort field
    pub sort_by: Option<String>,
    /// Sort direction (asc/desc)
    pub sort_desc: bool,
}

impl Default for PaginationParams {
    fn default() -> (p: Self)
        ensures
            p.offset == 0,
            p.limit == DEFAULT_PAGE_SIZE,
            p.sort_by is None,
            !p.sort_desc,
    {
        PaginationParams { offset: 0, limit: DEFAULT_PAGE_SIZE, sort_by: None, sort_desc: false }
    }
}

impl PaginationParams {
    /// Parameters for the page at `offset` holding at most `limit` items;
    /// the page size is capped at `MAX_PAGE_SIZE`, and no sort is set.
    pub fn new(offset: i64, limit: i64) -> (p: Self)
        ensures
            p.offset == offset,
            p.limit == capped_limit(limit),
            p.sort_by is None,
            !p.sort_desc,
    {
        let capped = if limit < MAX_PAGE_SIZE { limit } else { MAX_PAGE_SIZE };
        PaginationParams { offset, limit: capped, sort_by: None, sort_desc: false }
    }

    /// The same parameters, sorted by `field` (descending when `desc`).
    pub fn with_sort(self, field: &str, desc: bool) -> (p: Self)
        ensures
            p.offset == self.offset,
            p.limit == self.limit,
            p.sort_by matches Some(s) && s@ == field@,
            p.sort_desc == desc,
    {
        proof {
            broadcast use vstd::string::group_string_axioms;
        }
        let mut p = self;
        let name = field.to_string();
        p.sort_by = Some(name);
        p.sort_desc = desc;
        p
    }

    /// The SQL `OFFSET` value.
    pub fn sql_offset(&self) -> (o: i64)
        ensures
            o == self.offset,
    {
        self.offset
    }

    /// The SQL `LIMIT` value.
    pub fn sql_limit(&self) -> (l: i64)
        ensures
            l == self.limit,
    {
        self.limit
    }
}

/// Whether items remain after the page described by `offset` and `limit`
/// in a result set of `total` items.
pub open spec fn more_after(offset: i64, limit: i64, total: i64) -> bool {
    offset + limit < total
}

/// One page of results.
#[derive(Debug, Clone)]
pub struct PaginatedResponse<T> {
    pub items: Vec<T>,
    pub total: i64,
    pub offset: i64,
    pub limit: i64,
    pub has_more: bool,
}

/// The page that `PaginatedResponse::new` builds for `items` out of `total`
/// with `params`.
pub open spec fn page_of<T>(items: Vec<T>, total: i64, params: PaginationParams) -> PaginatedResponse<T> {
    PaginatedResponse {
        items,
        total,
        offset: params.offset,
        limit: params.limit,
        has_more: more_after(params.offset, params.limit, total),
    }
}

/// A page reports more results exactly when rows remain past its end: the
/// row just after the page, at position `offset + limit`, still lies below
/// `total`. A page that reaches or passes the last row reports none, and one
/// that ends before it (even by a single row, as a partial last page does)
/// reports more.
pub proof fn lemma_has_more_iff_rows_remain<T>(items: Vec<T>, total: i64, params: PaginationParams)
    ensures
        page_of(items, total, params).has_more <==> params.offset + params.limit < total,
        params.offset + params.limit >= total ==> !page_of(items, total, params).has_more,
        params.offset + params.limit + 1 <= total ==> page_of(items, total, params).has_more,
        more_after(params.offset, params.limit, total) <==> params.offset + params.limit < total,
{
}

/// Whether a page has more after it, and its total, offset and limit,
/// depend on the parameters and the total alone, never on the items it
/// holds (nor on how many there are).
pub proof fn lemma_page_flags_ignore_items<T>(
    items1: Vec<T>,
    items2: Vec<T>,
    total: i64,
    params: PaginationParams,
)
    ensures
        page_of(items1, total, params).has_more == page_of(items2, total, params).has_more,
        page_of(items1, total, params).total == page_of(items2, total, params).total,
        page_of(items1, total, params).offset == page_of(items2, total, params).offset,
        page_of(items1, total, params).limit == page_of(items2, total, params).limit,
{
}

impl<T> PaginatedResponse<T> {
    /// The page holding `items` out of `total`, taken with `params`.
    /// The sum `params.offset + params.limit` must fit in an `i64`.
    pub fn new(items: Vec<T>, total: i64, params: &PaginationParams) -> (r: Self)
        requires
            i64::MIN <= params.offset + params.limit <= i64::MAX,
        ensures
            r.items == items,
            r.total == total,
            r.offset == params.offset,
            r.limit == params.limit,
            r.has_more == more_after(params.offset, params.limit, total),
            r.has_more <==> params.offset + params.limit < total,
            r == page_of(items, total, *params),
    {
        let has_more = (params.offset + params.limit) < total;
        PaginatedResponse { items, total, offset: params.offset, limit: params.limit, has_more }
    }
}

/// Base repository, a starting point for concrete repositories of `T`.
pub struct BaseRepository<T> {
    _phantom: core::marker::PhantomData<T>,
}

impl<T> BaseRepository<T> {
    /// A repository handle; it carries no state.
    pub fn new() -> Self {
        BaseRepository { _phantom: core::marker::PhantomData }
    }
}

impl<T> Default for BaseRepository<T> {
    fn default() -> Self {
        Self::new()
    }
}

} // verus!
