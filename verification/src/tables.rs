//! Table flows: building the table a create request inserts (with
//! identifiers peeked from both counters and committed only after the store
//! accepted the write), the duplicate-check step, and table listings with
//! their resilient collection.

use vstd::prelude::*;
use crate::collector::{collect_cursor, RawRecord};
use crate::collector::{spec_dropped, spec_failed_ids, spec_successes};
use crate::errors::{AxumErrors, ErrorResponse};
use crate::filters::ListTableFiltersRequest;
use crate::models::{
    spec_table_response, tables_to_responses, CookStatus, Item, Order, Table, TableResponse,
};
use crate::orders::spec_found_items;
use crate::pagination::Pagination;

verus! {

/// Response of a table creation: the store identifier and the table.
#[derive(Clone, Debug, PartialEq)]
pub struct PostTableResponse {
    pub id: String,
    pub table: TableResponse,
}

/// Body of a create-table request: catalog names to order right away.
#[derive(Clone, Debug, PartialEq)]
pub struct CreateTableOrdersRequest {
    pub orders: Vec<String>,
}

/// Table listing with its echo of pagination, filters and collection
/// failures.
#[derive(Clone, Debug, PartialEq)]
pub struct ListTableResponse {
    pub tables: Vec<TableResponse>,
    pub pagination: ListTablePaginationResponse,
    pub filters: ListTableFiltersRequest,
    pub errors: ListTableErrorResponse,
}

/// Pagination echo of a table listing.
#[derive(Clone, Copy, Debug, PartialEq)]
pub struct ListTablePaginationResponse {
    pub total: u64,
    pub limit: i64,
    pub offset: u64,
}

/// Collection-failure echo of a table listing.
#[derive(Clone, Debug, PartialEq)]
pub struct ListTableErrorResponse {
    pub failed_table_ids: Option<Vec<String>>,
    pub failed_table_count: u64,
}

/// Response of a table deletion: the table as it stood.
#[derive(Clone, Debug, PartialEq)]
pub struct DeleteTableResponse {
    pub table: TableResponse,
}

/// Raw result of collecting a table listing batch.
#[derive(Clone, Debug, PartialEq)]
pub struct ListTablesResult {
    pub tables: Vec<TableResponse>,
    pub failed_tables: Option<Vec<String>>,
    pub count: u64,
    pub dropped: u64,
}

/// Relies on bson's `ObjectId::new` and `ObjectId::to_hex`: a fresh twelve
/// byte store identifier, rendered as its twenty-four hexadecimal
/// characters.
#[verifier::external_body]
fn fresh_object_id_hex() -> (r: String)
    ensures
        r@.len() == 24,
{
    mongodb::bson::oid::ObjectId::new().to_hex()
}

/// Prepares the orders a create-table request embeds: one per found item,
/// with identifiers peeked past `order_id_base` but not yet committed — the
/// `k`-th found item gets `order_id_base + 1 + k` — the new table's back
/// reference, the request time and an in-progress status.
pub fn build_table_orders(
    items: Vec<Option<Item>>,
    table_id: i64,
    order_id_base: i64,
    now: i64,
) -> (orders: Vec<Order>)
    requires
        0 <= order_id_base,
        order_id_base + items@.len() <= i64::MAX,
    ensures
        orders@.len() == spec_found_items(items@).len(),
        forall|k: int|
            0 <= k < orders@.len() ==> #[trigger] orders@[k] == (Order {
                order_id: (order_id_base + 1 + k) as i64,
                table_id: table_id,
                ordered_time: now,
                cook_status: CookStatus::InProgress,
                item: spec_found_items(items@)[k],
            }),
{
    let ghost all = items@;
    let mut orders: Vec<Order> = Vec::new();
    for it in iter: items.into_iter()
        invariant
            iter.seq() == all,
            0 <= order_id_base,
            order_id_base + all.len() <= i64::MAX,
            orders@.len() == spec_found_items(all.take(iter.index() as int)).len(),
            orders@.len() <= iter.index(),
            forall|k: int|
                0 <= k < orders@.len() ==> #[trigger] orders@[k] == (Order {
                    order_id: (order_id_base + 1 + k) as i64,
                    table_id: table_id,
                    ordered_time: now,
                    cook_status: CookStatus::InProgress,
                    item: spec_found_items(all.take(iter.index() as int))[k],
                }),
    {
        proof {
            assert(all.take(iter.index() + 1).drop_last() =~= all.take(iter.index() as int));
            assert(all.take(iter.index() + 1).last() == it);
            assert(iter.index() < all.len());
        }
        match it {
            Some(item) => {
                let k = orders.len();
                orders.push(
                    Order {
                        order_id: order_id_base + 1 + k as i64,
                        table_id,
                        ordered_time: now,
                        cook_status: CookStatus::InProgress,
                        item,
                    },
                );
            },
            None => (),
        }
    }
    proof {
        assert(all.take(all.len() as int) =~= all);
    }
    orders
}

/// Builds the table a create request inserts: a fresh store identifier, the
/// next table identifier past `table_id_base`, and the prepared orders.
/// Nothing is committed here; the caller commits both counters only once
/// the store accepted the insert.
pub fn build_table(
    table_id_base: i64,
    order_id_base: i64,
    items: Vec<Option<Item>>,
    now: i64,
) -> (t: Table)
    requires
        0 <= table_id_base < i64::MAX,
        0 <= order_id_base,
        order_id_base + items@.len() <= i64::MAX,
    ensures
        t.id@.len() == 24,
        t.table_id == table_id_base + 1,
        t.orders@.len() == spec_found_items(items@).len(),
        forall|k: int|
            0 <= k < t.orders@.len() ==> #[trigger] t.orders@[k] == (Order {
                order_id: (order_id_base + 1 + k) as i64,
                table_id: (table_id_base + 1) as i64,
                ordered_time: now,
                cook_status: CookStatus::InProgress,
                item: spec_found_items(items@)[k],
            }),
{
    let table_id = table_id_base + 1;
    let orders = build_table_orders(items, table_id, order_id_base, now);
    Table { id: fresh_object_id_hex(), table_id, orders }
}

/// What the create flow does after its duplicate check.
#[derive(Clone, Debug, PartialEq)]
pub enum CreateTableStep {
    /// A table with the same identifier already exists: hand it back, insert
    /// nothing, commit nothing.
    UseExisting(Table),
    /// No duplicate: insert the freshly built table.
    Insert(Table),
}

/// Duplicate-check step of the create flow.
pub fn plan_create_table(existing: Option<Table>, fresh: Table) -> (r: CreateTableStep)
    ensures
        match existing {
            Some(t) => r == CreateTableStep::UseExisting(t),
            None => r == CreateTableStep::Insert(fresh),
        },
{
    match existing {
        Some(t) => CreateTableStep::UseExisting(t),
        None => CreateTableStep::Insert(fresh),
    }
}

/// Collection half of the table listing: `drained` is the outcome of
/// draining the find cursor, `count` the store's own match count.  A stream
/// failure is fatal; otherwise the batch is collected and each collected
/// table's response is derived at `now`.
pub fn list_tables(
    drained: Result<Vec<RawRecord<Table>>, ()>,
    count: u64,
    now: i64,
) -> (r: Result<ListTablesResult, ErrorResponse>)
    ensures
        drained is Err ==> (r matches Err(e) && e.spec_is(AxumErrors::BsonDeserializeError)),
        drained matches Ok(records) ==> (r matches Ok(res) && {
            &&& res.tables@.len() == spec_successes(records@).len()
            &&& forall|i: int|
                0 <= i < res.tables@.len() ==> spec_table_response(
                    spec_successes(records@)[i],
                    now as int,
                    #[trigger] res.tables@[i],
                )
            &&& res.count == count
            &&& res.dropped == spec_dropped(records@)
            &&& (spec_failed_ids(records@).len() == 0 ==> res.failed_tables is None)
            &&& (spec_failed_ids(records@).len() > 0 ==> (res.failed_tables matches Some(ids)
                && ids@ == spec_failed_ids(records@)))
        }),
{
    match collect_cursor(drained) {
        Ok(c) => {
            let tables = tables_to_responses(&c.successfully_deserialized, now);
            let failed_tables = if c.failed_deserialized.len() == 0 {
                None
            } else {
                Some(c.failed_deserialized)
            };
            Ok(ListTablesResult { tables, failed_tables, count, dropped: c.dropped })
        },
        Err(e) => Err(ErrorResponse::from_error(e)),
    }
}

/// Presentation half of the table listing: the store count is the reported
/// total, and the collection failures surface in the error echo.
pub fn list_table_response(
    result: ListTablesResult,
    filters: ListTableFiltersRequest,
    pagination: &Pagination,
) -> (r: ListTableResponse)
    ensures
        r.tables@ == result.tables@,
        r.pagination.total == result.count,
        r.pagination.limit == pagination.limit,
        r.pagination.offset == pagination.offset,
        r.filters == filters,
        r.errors.failed_table_ids == result.failed_tables,
        r.errors.failed_table_count == result.dropped,
{
    ListTableResponse {
        tables: result.tables,
        pagination: ListTablePaginationResponse {
            total: result.count,
            limit: pagination.limit,
            offset: pagination.offset,
        },
        filters,
        errors: ListTableErrorResponse {
            failed_table_ids: result.failed_tables,
            failed_table_count: result.dropped,
        },
    }
}

/// Response of a successful creation: the store identifier beside the
/// table's response copy.
pub fn post_table_response(table: &Table, now: i64) -> (r: PostTableResponse)
    ensures
        r.id@ == table.id@,
        spec_table_response(*table, now as int, r.table),
{
    PostTableResponse { id: table.id.clone(), table: table.to_response(now) }
}

/// Response of a successful deletion: the deleted table's response copy.
pub fn delete_table_response(table: &Table, now: i64) -> (r: DeleteTableResponse)
    ensures
        spec_table_response(*table, now as int, r.table),
{
    DeleteTableResponse { table: table.to_response(now) }
}

} // verus!
