//! Domain records: tables embedding orders, orders referencing catalog items,
//! and the response shapes with the derived cook status.
//!
//! Times are seconds since the Unix epoch.  The cook status is never stored:
//! it is recomputed from the order time, the item's cook time and the clock
//! at every read.

use vstd::prelude::*;

verus! {

/// Catalog entry: a name and how long the item takes to cook, in seconds.
#[derive(Clone, Debug, PartialEq)]
pub struct Item {
    pub item_name: String,
    pub cook_time: i64,
}

/// Whether an order's preparation time has elapsed.  Derived, never persisted.
#[derive(Clone, Copy, Debug, PartialEq, Eq, Structural)]
pub enum CookStatus {
    InProgress,
    Done,
}

/// An order embedded in a table.  `table_id` is the denormalized back
/// reference; `cook_status` is only meaningful in response values.
#[derive(Clone, Debug, PartialEq)]
pub struct Order {
    pub order_id: i64,
    pub table_id: i64,
    pub ordered_time: i64,
    pub cook_status: CookStatus,
    pub item: Item,
}

/// A stored table: the store-owned identifier, the caller-visible sequential
/// id, and the embedded order list.
#[derive(Clone, Debug, PartialEq)]
pub struct Table {
    pub id: String,
    pub table_id: i64,
    pub orders: Vec<Order>,
}

/// Response copy of an item.
#[derive(Clone, Debug, PartialEq)]
pub struct ItemResponse {
    pub item_name: String,
    pub cook_time: i64,
}

/// Response copy of an order, with the cook status recomputed at read time.
#[derive(Clone, Debug, PartialEq)]
pub struct OrderResponse {
    pub order_id: i64,
    pub table_id: i64,
    pub ordered_time: i64,
    pub cook_status: CookStatus,
    pub item: ItemResponse,
}

/// Response copy of a table, with the store-owned identifier stripped.
#[derive(Clone, Debug, PartialEq)]
pub struct TableResponse {
    pub table_id: i64,
    pub orders: Vec<OrderResponse>,
}

/// Done exactly when the cook time has elapsed since the order was placed.
pub open spec fn spec_cook_status(ordered_time: int, cook_time: int, now: int) -> CookStatus {
    if now >= ordered_time + cook_time {
        CookStatus::Done
    } else {
        CookStatus::InProgress
    }
}

/// The response an order yields when read at time `now`.
pub open spec fn spec_order_response(o: Order, now: int) -> OrderResponse {
    OrderResponse {
        order_id: o.order_id,
        table_id: o.table_id,
        ordered_time: o.ordered_time,
        cook_status: spec_cook_status(o.ordered_time as int, o.item.cook_time as int, now),
        item: ItemResponse { item_name: o.item.item_name, cook_time: o.item.cook_time },
    }
}

/// The responses a whole order list yields when read at time `now`.
pub open spec fn spec_order_responses(orders: Seq<Order>, now: int) -> Seq<OrderResponse> {
    orders.map_values(|o: Order| spec_order_response(o, now))
}

/// `r` is the response table `t` yields when read at time `now`.
pub open spec fn spec_table_response(t: Table, now: int, r: TableResponse) -> bool {
    &&& r.table_id == t.table_id
    &&& r.orders@ == spec_order_responses(t.orders@, now)
}

/// Derived cook status of an order placed at `ordered_time` for an item that
/// takes `cook_time` seconds, read at `now`.  Exact over the whole `i64`
/// range: the sum is taken without wrapping.
pub fn cook_status_at(ordered_time: i64, cook_time: i64, now: i64) -> (s: CookStatus)
    ensures
        s == spec_cook_status(ordered_time as int, cook_time as int, now as int),
        s == CookStatus::Done <==> now >= ordered_time + cook_time,
{
    if (now as i128) >= (ordered_time as i128) + (cook_time as i128) {
        CookStatus::Done
    } else {
        CookStatus::InProgress
    }
}

impl CookStatus {
    /// The variant's name, as transports spell it.
    pub open spec fn spec_name(self) -> Seq<char> {
        match self {
            CookStatus::InProgress => "InProgress"@,
            CookStatus::Done => "Done"@,
        }
    }

    pub fn to_string(&self) -> (s: String)
        ensures
            s@ == self.spec_name(),
    {
        match self {
            CookStatus::InProgress => "InProgress".to_string(),
            CookStatus::Done => "Done".to_string(),
        }
    }

    /// Parses a status name; exactly the two spellings above are accepted.
    pub fn from_str(input: &str) -> (r: Result<CookStatus, ()>)
        ensures
            input@ == CookStatus::InProgress.spec_name() ==> r == Ok::<CookStatus, ()>(
                CookStatus::InProgress,
            ),
            input@ == CookStatus::Done.spec_name() ==> r == Ok::<CookStatus, ()>(CookStatus::Done),
            input@ != CookStatus::InProgress.spec_name() && input@ != CookStatus::Done.spec_name()
                ==> r == Err::<CookStatus, ()>(()),
    {
        proof {
            reveal_strlit("InProgress");
            reveal_strlit("Done");
            assert("InProgress"@.len() == 10);
            assert("Done"@.len() == 4);
        }
        let owned = input.to_string();
        if owned == "InProgress".to_string() {
            Ok(CookStatus::InProgress)
        } else if owned == "Done".to_string() {
            Ok(CookStatus::Done)
        } else {
            Err(())
        }
    }
}

impl Item {
    /// Response copy of this item.
    pub fn to_response(&self) -> (r: ItemResponse)
        ensures
            r.item_name == self.item_name,
            r.cook_time == self.cook_time,
    {
        ItemResponse { item_name: self.item_name.clone(), cook_time: self.cook_time }
    }
}

impl Order {
    /// Response copy of this order, with the cook status derived at `now`.
    pub fn to_response(&self, now: i64) -> (r: OrderResponse)
        ensures
            r == spec_order_response(*self, now as int),
    {
        OrderResponse {
            order_id: self.order_id,
            table_id: self.table_id,
            ordered_time: self.ordered_time,
            cook_status: cook_status_at(self.ordered_time, self.item.cook_time, now),
            item: self.item.to_response(),
        }
    }
}

/// Response copies of every order in the list, statuses derived at `now`.
pub fn orders_to_responses(orders: &Vec<Order>, now: i64) -> (r: Vec<OrderResponse>)
    ensures
        r@ == spec_order_responses(orders@, now as int),
{
    let mut r: Vec<OrderResponse> = Vec::new();
    for i in 0..orders.len()
        invariant
            r@ == spec_order_responses(orders@.take(i as int), now as int),
    {
        r.push(orders[i].to_response(now));
        proof {
            assert(orders@.take(i + 1).drop_last() =~= orders@.take(i as int));
            assert(r@ =~= spec_order_responses(orders@.take(i + 1), now as int));
        }
    }
    proof {
        assert(orders@.take(orders@.len() as int) =~= orders@);
    }
    r
}

/// Response copies of every table in the list, statuses derived at `now`.
pub fn tables_to_responses(tables: &Vec<Table>, now: i64) -> (r: Vec<TableResponse>)
    ensures
        r@.len() == tables@.len(),
        forall|i: int|
            0 <= i < tables@.len() ==> spec_table_response(tables@[i], now as int, #[trigger] r@[i]),
{
    let mut r: Vec<TableResponse> = Vec::new();
    for i in 0..tables.len()
        invariant
            r@.len() == i,
            forall|j: int|
                0 <= j < i ==> spec_table_response(tables@[j], now as int, #[trigger] r@[j]),
    {
        r.push(tables[i].to_response(now));
    }
    r
}

impl Table {
    /// Response copy of this table, statuses derived at `now`.
    pub fn to_response(&self, now: i64) -> (r: TableResponse)
        ensures
            spec_table_response(*self, now as int, r),
    {
        TableResponse { table_id: self.table_id, orders: orders_to_responses(&self.orders, now) }
    }

    /// The first embedded order carrying `order_id`, if any.
    pub fn find_order(&self, order_id: i64) -> (r: Option<&Order>)
        ensures
            match r {
                Some(o) => exists|i: int|
                    {
                        &&& 0 <= i < self.orders@.len()
                        &&& self.orders@[i].order_id == order_id
                        &&& *o == self.orders@[i]
                        &&& forall|j: int|
                            0 <= j < i ==> self.orders@[j].order_id != order_id
                    },
                None => forall|i: int|
                    0 <= i < self.orders@.len() ==> self.orders@[i].order_id != order_id,
            },
    {
        for i in 0..self.orders.len()
            invariant
                forall|j: int| 0 <= j < i ==> self.orders@[j].order_id != order_id,
        {
            if self.orders[i].order_id == order_id {
                return Some(&self.orders[i]);
            }
        }
        None
    }
}

} // verus!
