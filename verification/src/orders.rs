//! Order flows: preparing new orders under the sequence allocator,
//! resolving single orders, and listing orders across tables with the
//! derived-status filter and in-memory pagination applied after collection.
//!
//! The store round trips themselves happen outside; these functions carry
//! every decision between them.

use vstd::prelude::*;
use crate::allocator::SequenceAllocator;
use crate::collector::{collect_cursor, RawRecord};
use crate::collector::{spec_dropped, spec_failed_ids, spec_successes};
use crate::errors::{AxumErrors, ErrorResponse};
use crate::models::{
    orders_to_responses, spec_order_responses, CookStatus, Item, Order, OrderResponse,
    TableResponse, Table,
};
use crate::pagination::{handle_pagination, spec_paginate, Pagination};

verus! {

/// Body of a create-orders request: the catalog names to order.
#[derive(Clone, Debug, PartialEq)]
pub struct CreateOrdersRequest {
    pub orders: Vec<String>,
}

/// Response carrying the table as it stands after a mutation.
#[derive(Clone, Debug, PartialEq)]
pub struct ReturnTableResponse {
    pub table: TableResponse,
}

/// Response listing one table's orders.
#[derive(Clone, Debug, PartialEq)]
pub struct ListTableOrdersResponse {
    pub table_id: i64,
    pub orders: Vec<OrderResponse>,
}

/// Response carrying one resolved order.
#[derive(Clone, Debug, PartialEq)]
pub struct GetOrderResponse {
    pub order: OrderResponse,
}

/// Filter criteria for listing orders across tables.  Empty lists mean the
/// constraint is absent; `item_names` here selects orders matching any of
/// the names.
#[derive(Clone, Debug, PartialEq)]
pub struct ListOrderFiltersRequest {
    pub table_ids: Vec<i64>,
    pub item_names: Vec<String>,
    pub cook_status: Option<CookStatus>,
}

/// Table-id list used when the caller supplies none.
pub fn default_vec_i64() -> (r: Vec<i64>)
    ensures
        r@ =~= Seq::<i64>::empty(),
{
    Vec::new()
}

/// Item-name list used when the caller supplies none.
pub fn default_vec_strings() -> (r: Vec<String>)
    ensures
        r@ =~= Seq::<String>::empty(),
{
    Vec::new()
}

/// Order listing with its echo of pagination and filters.
#[derive(Clone, Debug, PartialEq)]
pub struct ListOrdersResponse {
    pub orders: Vec<OrderResponse>,
    pub pagination: ListOrderPaginationResponse,
    pub filters: ListOrderFiltersRequest,
}

/// Pagination echo of an order listing: the total before slicing, and the
/// offset and limit that sliced it.
#[derive(Clone, Copy, Debug, PartialEq)]
pub struct ListOrderPaginationResponse {
    pub total: u64,
    pub limit: i64,
    pub offset: u64,
}

/// Raw result of collecting an order listing batch.
#[derive(Clone, Debug, PartialEq)]
pub struct ListOrderResult {
    pub orders: Vec<OrderResponse>,
    pub failed_orders: Option<Vec<String>>,
    pub count: u64,
    pub dropped: u64,
}

/// The items actually found, in request order: absent catalog names
/// contribute nothing.
pub open spec fn spec_found_items(items: Seq<Option<Item>>) -> Seq<Item> {
    items.filter_map(|it: Option<Item>| it)
}

/// Prepares one order per found item, assigning identifiers from the order
/// counter while it is held exclusively: the `k`-th found item gets the
/// `k`-th freshly issued identifier, the table back reference, the request
/// time and an in-progress status.  Items that were not found are skipped
/// without consuming an identifier.
pub fn build_orders(
    items: Vec<Option<Item>>,
    table_id: i64,
    now: i64,
    allocator: &mut SequenceAllocator,
) -> (orders: Vec<Order>)
    requires
        0 <= old(allocator).counter,
        old(allocator).counter + items@.len() <= i64::MAX,
    ensures
        final(allocator).counter == old(allocator).counter + spec_found_items(items@).len(),
        orders@.len() == spec_found_items(items@).len(),
        forall|k: int|
            0 <= k < orders@.len() ==> #[trigger] orders@[k] == (Order {
                order_id: (old(allocator).counter + 1 + k) as i64,
                table_id: table_id,
                ordered_time: now,
                cook_status: CookStatus::InProgress,
                item: spec_found_items(items@)[k],
            }),
{
    let ghost all = items@;
    let ghost base = allocator.counter as int;
    let mut orders: Vec<Order> = Vec::new();
    for it in iter: items.into_iter()
        invariant
            iter.seq() == all,
            base == old(allocator).counter,
            0 <= base,
            base + all.len() <= i64::MAX,
            orders@.len() == spec_found_items(all.take(iter.index() as int)).len(),
            allocator.counter == base + orders@.len(),
            orders@.len() <= iter.index(),
            forall|k: int|
                0 <= k < orders@.len() ==> #[trigger] orders@[k] == (Order {
                    order_id: (base + 1 + k) as i64,
                    table_id: table_id,
                    ordered_time: now,
                    cook_status: CookStatus::InProgress,
                    item: spec_found_items(all.take(iter.index() as int))[k],
                }),
    {
        proof {
            assert(all.take(iter.index() + 1).drop_last() =~= all.take(iter.index() as int));
            assert(all.take(iter.index() + 1).last() == it);
            assert(iter.index() < all.len());
        }
        match it {
            Some(item) => {
                let order_id = allocator.next();
                orders.push(
                    Order {
                        order_id,
                        table_id,
                        ordered_time: now,
                        cook_status: CookStatus::InProgress,
                        item,
                    },
                );
            },
            None => (),
        }
    }
    proof {
        assert(all.take(all.len() as int) =~= all);
    }
    orders
}

/// The predicate the derived-status filter applies to one order response.
pub open spec fn spec_status_pred(status: CookStatus) -> spec_fn(OrderResponse) -> bool {
    |o: OrderResponse| o.cook_status == status
}

/// The orders whose derived status equals the requested one, in order.
pub open spec fn spec_with_status(orders: Seq<OrderResponse>, status: CookStatus) -> Seq<
    OrderResponse,
> {
    orders.filter(spec_status_pred(status))
}

/// Keeps exactly the orders whose derived status equals the requested one.
pub fn handle_cooking_status_filter(orders: Vec<OrderResponse>, cook_status: &CookStatus) -> (r:
    Vec<OrderResponse>)
    ensures
        r@ == spec_with_status(orders@, *cook_status),
{
    let ghost all = orders@;
    let ghost status = *cook_status;
    let mut r: Vec<OrderResponse> = Vec::new();
    for o in iter: orders.into_iter()
        invariant
            iter.seq() == all,
            status == *cook_status,
            r@ == spec_with_status(all.take(iter.index() as int), status),
    {
        proof {
            reveal(Seq::filter);
            let s1 = all.take(iter.index() + 1);
            let s0 = all.take(iter.index() as int);
            assert(s1.drop_last() =~= s0);
            assert(s1.last() == o);
            assert(spec_status_pred(status)(o) == (o.cook_status == status));
            assert(spec_with_status(s1, status) == if o.cook_status == status {
                spec_with_status(s0, status).push(o)
            } else {
                spec_with_status(s0, status)
            });
        }
        if o.cook_status == *cook_status {
            r.push(o);
        } else {
        }
    }
    proof {
        reveal(Seq::filter);
        assert(all.take(all.len() as int) =~= all);
    }
    r
}

/// The not-found gate every table-scoped flow applies to a lookup result.
pub fn require_table_found(found: Option<Table>) -> (r: Result<Table, ErrorResponse>)
    ensures
        match found {
            Some(t) => r matches Ok(out) && out == t,
            None => r matches Err(e) && e.spec_is(AxumErrors::NotFound),
        },
{
    match found {
        Some(t) => Ok(t),
        None => Err(ErrorResponse::from_error(AxumErrors::NotFound)),
    }
}

/// Resolves one order inside a fetched table: the first embedded order with
/// the identifier.  A missing table is the caller's not-found; the store
/// only hands back tables that contain the order, so a present table is
/// required to contain it.
pub fn get_order(found: Option<Table>, order_id: i64) -> (r: Result<Order, ErrorResponse>)
    requires
        match found {
            Some(t) => exists|i: int|
                0 <= i < t.orders@.len() && #[trigger] t.orders@[i].order_id == order_id,
            None => true,
        },
    ensures
        match found {
            Some(t) => r matches Ok(o) && exists|i: int|
                {
                    &&& 0 <= i < t.orders@.len()
                    &&& #[trigger] t.orders@[i].order_id == order_id
                    &&& o == t.orders@[i]
                    &&& forall|j: int| 0 <= j < i ==> t.orders@[j].order_id != order_id
                },
            None => r matches Err(e) && e.spec_is(AxumErrors::NotFound),
        },
{
    match found {
        Some(t) => {
            let mut idx: usize = 0;
            while idx < t.orders.len()
                invariant
                    idx <= t.orders@.len(),
                    forall|j: int| 0 <= j < idx ==> t.orders@[j].order_id != order_id,
                    exists|i: int|
                        0 <= i < t.orders@.len() && #[trigger] t.orders@[i].order_id == order_id,
                ensures
                    idx < t.orders@.len(),
                    t.orders@[idx as int].order_id == order_id,
                    forall|j: int| 0 <= j < idx ==> t.orders@[j].order_id != order_id,
                decreases t.orders@.len() - idx,
            {
                if t.orders[idx].order_id == order_id {
                    break ;
                }
                idx = idx + 1;
            }
            let ghost torders = t.orders@;
            let mut orders = t.orders;
            let order = orders.swap_remove(idx);
            proof {
                assert(order == torders[idx as int]);
                assert(torders[idx as int].order_id == order_id);
            }
            Ok(order)
        },
        None => Err(ErrorResponse::from_error(AxumErrors::NotFound)),
    }
}

/// The predicate that keeps an order while another one is being deleted.
pub open spec fn spec_keeps_pred(order_id: i64) -> spec_fn(Order) -> bool {
    |o: Order| o.order_id != order_id
}

/// The order list once every entry carrying the identifier is removed —
/// the effect the store's pull update has on the embedded list.
pub open spec fn spec_without_order(orders: Seq<Order>, order_id: i64) -> Seq<Order> {
    orders.filter(spec_keeps_pred(order_id))
}

/// Decision and effect of deleting one order.  An absent table and an
/// order absent from a present table are both the caller's not-found;
/// otherwise the result is the table as it stands once every entry with
/// the identifier is removed, which is what the store's pull update
/// leaves behind.
pub fn delete_order(found: Option<Table>, order_id: i64) -> (r: Result<Table, ErrorResponse>)
    ensures
        match found {
            Some(t) => {
                if exists|i: int|
                    0 <= i < t.orders@.len() && #[trigger] t.orders@[i].order_id == order_id {
                    r matches Ok(out) && out.id == t.id && out.table_id == t.table_id
                        && out.orders@ == spec_without_order(t.orders@, order_id)
                } else {
                    r matches Err(e) && e.spec_is(AxumErrors::NotFound)
                }
            },
            None => r matches Err(e) && e.spec_is(AxumErrors::NotFound),
        },
{
    match found {
        Some(t) => {
            if t.find_order(order_id).is_none() {
                return Err(ErrorResponse::from_error(AxumErrors::NotFound));
            }
            let ghost all = t.orders@;
            let id = t.id;
            let table_id = t.table_id;
            let mut kept: Vec<Order> = Vec::new();
            for o in iter: t.orders.into_iter()
                invariant
                    iter.seq() == all,
                    kept@ == spec_without_order(all.take(iter.index() as int), order_id),
            {
                proof {
                    reveal(Seq::filter);
                    let s1 = all.take(iter.index() + 1);
                    let s0 = all.take(iter.index() as int);
                    assert(s1.drop_last() =~= s0);
                    assert(s1.last() == o);
                    assert(spec_keeps_pred(order_id)(o) == (o.order_id != order_id));
                    assert(spec_without_order(s1, order_id) == if o.order_id != order_id {
                        spec_without_order(s0, order_id).push(o)
                    } else {
                        spec_without_order(s0, order_id)
                    });
                }
                if o.order_id != order_id {
                    kept.push(o);
                } else {
                }
            }
            proof {
                reveal(Seq::filter);
                assert(all.take(all.len() as int) =~= all);
            }
            Ok(Table { id, table_id, orders: kept })
        },
        None => Err(ErrorResponse::from_error(AxumErrors::NotFound)),
    }
}

/// Collection half of the cross-table order listing: `drained` is the
/// outcome of draining the aggregation cursor.  A stream failure is fatal
/// and surfaces as the decode error with its status hint; otherwise the
/// batch is collected, every collected order's response is derived at
/// `now`, and the reported count is the number of collected orders.
pub fn list_all_orders(drained: Result<Vec<RawRecord<Order>>, ()>, now: i64) -> (r: Result<
    ListOrderResult,
    ErrorResponse,
>)
    ensures
        drained is Err ==> (r matches Err(e) && e.spec_is(AxumErrors::BsonDeserializeError)),
        drained matches Ok(records) ==> (r matches Ok(res) && {
            &&& res.orders@ == spec_order_responses(spec_successes(records@), now as int)
            &&& res.count == spec_successes(records@).len()
            &&& res.dropped == spec_dropped(records@)
            &&& (spec_failed_ids(records@).len() == 0 ==> res.failed_orders is None)
            &&& (spec_failed_ids(records@).len() > 0 ==> (res.failed_orders matches Some(ids)
                && ids@ == spec_failed_ids(records@)))
        }),
{
    match collect_cursor(drained) {
        Ok(c) => {
            let orders = orders_to_responses(&c.successfully_deserialized, now);
            let count = orders.len() as u64;
            let failed_orders = if c.failed_deserialized.len() == 0 {
                None
            } else {
                Some(c.failed_deserialized)
            };
            Ok(ListOrderResult { orders, failed_orders, count, dropped: c.dropped })
        },
        Err(e) => Err(ErrorResponse::from_error(e)),
    }
}

/// One table's orders, each response derived at `now`, once the table was
/// found.
pub fn list_table_orders(table: Table, now: i64) -> (r: ListTableOrdersResponse)
    ensures
        r.table_id == table.table_id,
        r.orders@ == spec_order_responses(table.orders@, now as int),
{
    let orders = orders_to_responses(&table.orders, now);
    ListTableOrdersResponse { table_id: table.table_id, orders }
}

/// Presentation half of the cross-table order listing: the derived-status
/// filter applies first when requested, the reported total counts what
/// survived it, and pagination slices last.
pub fn list_all_orders_response(
    result: ListOrderResult,
    filters: ListOrderFiltersRequest,
    pagination: &Pagination,
) -> (r: ListOrdersResponse)
    requires
        pagination.limit >= 0,
    ensures
        ({
            let kept = match filters.cook_status {
                Some(status) => spec_with_status(result.orders@, status),
                None => result.orders@,
            };
            &&& r.orders@ == spec_paginate(
                kept,
                pagination.offset as int,
                pagination.limit as int,
            )
            &&& r.pagination.total == kept.len()
            &&& r.pagination.limit == pagination.limit
            &&& r.pagination.offset == pagination.offset
            &&& r.filters == filters
        }),
{
    let kept = match &filters.cook_status {
        Some(status) => handle_cooking_status_filter(result.orders, status),
        None => result.orders,
    };
    let total = kept.len() as u64;
    let orders = handle_pagination(kept, pagination);
    ListOrdersResponse {
        orders,
        pagination: ListOrderPaginationResponse {
            total,
            limit: pagination.limit,
            offset: pagination.offset,
        },
        filters,
    }
}

} // verus!
