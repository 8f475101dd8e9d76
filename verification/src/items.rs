//! Item catalog flows: compiling the name-membership query and collecting
//! catalog listings.
//!
//! The catalog query's `item_names` is disjunctive — an item matches when
//! its name equals any listed name — unlike the table filter compiler's
//! conjunctive list.  Both observed behaviors are preserved deliberately.

use vstd::prelude::*;
use crate::collector::{collect_cursor, RawRecord};
use crate::collector::{spec_dropped, spec_failed_ids, spec_successes};
use crate::errors::{AxumErrors, ErrorResponse};
use crate::models::{Item, ItemResponse};
use crate::pagination::Pagination;

verus! {

/// Criteria for listing catalog items; an empty list means no constraint.
#[derive(Clone, Debug, PartialEq)]
pub struct ListItemsRequest {
    pub item_names: Vec<String>,
}

/// Item-name list used when the caller supplies none.
pub fn empty_vec_of_strings() -> (r: Vec<String>)
    ensures
        r@ =~= Seq::<String>::empty(),
{
    Vec::new()
}

/// Item listing with its echo of pagination, filters and collection
/// failures.
#[derive(Clone, Debug, PartialEq)]
pub struct ListItemsResponse {
    pub items: Vec<ItemResponse>,
    pub pagination: ListItemsPaginationResponse,
    pub filters: ListItemsRequest,
    pub errors: ListItemsErrorResponse,
}

/// Pagination echo of an item listing.
#[derive(Clone, Copy, Debug, PartialEq)]
pub struct ListItemsPaginationResponse {
    pub total: u64,
    pub limit: i64,
    pub offset: u64,
}

/// Collection-failure echo of an item listing.
#[derive(Clone, Debug, PartialEq)]
pub struct ListItemsErrorResponse {
    pub failed_items_ids: Option<Vec<String>>,
    pub failed_items_count: u64,
}

/// Raw result of collecting an item listing batch.
#[derive(Clone, Debug, PartialEq)]
pub struct ListItemResults {
    pub items: Vec<ItemResponse>,
    pub failed_items: Option<Vec<String>>,
    pub count: u64,
    pub dropped: u64,
}

/// Compiled catalog query: unconstrained, or a name-membership clause.
#[derive(Clone, Debug, PartialEq)]
pub enum ItemsQuery {
    /// Empty query: every catalog item matches.
    All,
    /// Membership clause: an item matches when its name equals any listed
    /// name.
    NamesIn(Vec<String>),
}

/// What one compiled catalog query means on one item.
pub open spec fn spec_item_matches(q: ItemsQuery, item: Item) -> bool {
    match q {
        ItemsQuery::All => true,
        ItemsQuery::NamesIn(names) => exists|i: int|
            0 <= i < names@.len() && (#[trigger] names@[i])@ == item.item_name@,
    }
}

/// Compiles the caller's name list: no names, no clause.
pub fn compile_items_query(item_names: Vec<String>) -> (q: ItemsQuery)
    ensures
        item_names@.len() == 0 ==> q == ItemsQuery::All,
        item_names@.len() > 0 ==> q == ItemsQuery::NamesIn(item_names),
{
    if item_names.len() == 0 {
        ItemsQuery::All
    } else {
        ItemsQuery::NamesIn(item_names)
    }
}

/// Seeding step of startup: the catalog is seeded only while it is empty;
/// an already-populated catalog is never overwritten.
pub fn should_seed_items(existing_count: usize) -> (r: bool)
    ensures
        r == (existing_count == 0),
{
    existing_count == 0
}

/// Omission law of the catalog query: an empty name list compiles to the
/// unconstrained query, and that query matches every catalog item.
pub proof fn lemma_items_query_omission(item: Item)
    ensures
        spec_item_matches(ItemsQuery::All, item),
{
}

/// The response copy of one item, in spec form.
pub open spec fn spec_item_response(it: Item) -> ItemResponse {
    ItemResponse { item_name: it.item_name, cook_time: it.cook_time }
}

/// Response copies of every item in the list.
pub fn items_to_responses(items: &Vec<Item>) -> (r: Vec<ItemResponse>)
    ensures
        r@ == items@.map_values(|it: Item| spec_item_response(it)),
{
    let mut r: Vec<ItemResponse> = Vec::new();
    for i in 0..items.len()
        invariant
            r@ == items@.take(i as int).map_values(|it: Item| spec_item_response(it)),
    {
        r.push(items[i].to_response());
        proof {
            assert(items@.take(i + 1).drop_last() =~= items@.take(i as int));
            assert(r@ =~= items@.take(i + 1).map_values(|it: Item| spec_item_response(it)));
        }
    }
    proof {
        assert(items@.take(items@.len() as int) =~= items@);
    }
    r
}

/// Collection half of the item listing: `drained` is the outcome of
/// draining the find cursor, `count` the store's own match count.  A stream
/// failure is fatal; otherwise the batch is collected and accounted.
pub fn list_items(drained: Result<Vec<RawRecord<Item>>, ()>, count: u64) -> (r: Result<
    ListItemResults,
    ErrorResponse,
>)
    ensures
        drained is Err ==> (r matches Err(e) && e.spec_is(AxumErrors::BsonDeserializeError)),
        drained matches Ok(records) ==> (r matches Ok(res) && {
            &&& res.items@ == spec_successes(records@).map_values(
                |it: Item| spec_item_response(it),
            )
            &&& res.count == count
            &&& res.dropped == spec_dropped(records@)
            &&& (spec_failed_ids(records@).len() == 0 ==> res.failed_items is None)
            &&& (spec_failed_ids(records@).len() > 0 ==> (res.failed_items matches Some(ids)
                && ids@ == spec_failed_ids(records@)))
        }),
{
    match collect_cursor(drained) {
        Ok(c) => {
            let items = items_to_responses(&c.successfully_deserialized);
            let failed_items = if c.failed_deserialized.len() == 0 {
                None
            } else {
                Some(c.failed_deserialized)
            };
            Ok(ListItemResults { items, failed_items, count, dropped: c.dropped })
        },
        Err(e) => Err(ErrorResponse::from_error(e)),
    }
}

/// Presentation half of the item listing: the store count is the reported
/// total, and the collection failures surface in the error echo.
pub fn list_items_response(
    results: ListItemResults,
    filters: ListItemsRequest,
    pagination: &Pagination,
) -> (r: ListItemsResponse)
    ensures
        r.items@ == results.items@,
        r.pagination.total == results.count,
        r.pagination.limit == pagination.limit,
        r.pagination.offset == pagination.offset,
        r.filters == filters,
        r.errors.failed_items_ids == results.failed_items,
        r.errors.failed_items_count == results.dropped,
{
    ListItemsResponse {
        items: results.items,
        pagination: ListItemsPaginationResponse {
            total: results.count,
            limit: pagination.limit,
            offset: pagination.offset,
        },
        filters,
        errors: ListItemsErrorResponse {
            failed_items_ids: results.failed_items,
            failed_items_count: results.dropped,
        },
    }
}

} // verus!
