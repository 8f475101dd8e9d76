use restaurant_app::clock::order_response_now;
use restaurant_app::models::{
    cook_status_at, orders_to_responses, tables_to_responses, CookStatus, Item, Order, Table,
};

fn burger_order(order_id: i64, ordered_time: i64) -> Order {
    Order {
        order_id,
        table_id: 1,
        ordered_time,
        cook_status: CookStatus::InProgress,
        item: Item { item_name: "Burger".to_string(), cook_time: 5 },
    }
}

#[test]
fn status_in_progress_before_cook_time_elapses() {
    let t = 1_000;
    assert_eq!(cook_status_at(t, 5, t + 4), CookStatus::InProgress);
}

#[test]
fn status_done_exactly_at_cook_time() {
    let t = 1_000;
    assert_eq!(cook_status_at(t, 5, t + 5), CookStatus::Done);
}

#[test]
fn status_done_after_cook_time() {
    let t = 1_000;
    assert_eq!(cook_status_at(t, 5, t + 6), CookStatus::Done);
}

#[test]
fn status_extremes_do_not_wrap() {
    // The sum is taken exactly, so a huge cook time never wraps into Done.
    assert_eq!(cook_status_at(i64::MAX - 1, i64::MAX - 1, i64::MAX), CookStatus::InProgress);
    assert_eq!(cook_status_at(i64::MIN, 1, 0), CookStatus::Done);
}

#[test]
fn order_response_derives_status_and_copies_fields() {
    let order = burger_order(7, 1_000);
    let r = order.to_response(1_010);
    assert_eq!(r.order_id, 7);
    assert_eq!(r.table_id, 1);
    assert_eq!(r.ordered_time, 1_000);
    assert_eq!(r.cook_status, CookStatus::Done);
    assert_eq!(r.item.item_name, "Burger");
    assert_eq!(r.item.cook_time, 5);
}

#[test]
fn stored_status_is_ignored_on_read() {
    let mut order = burger_order(7, 1_000);
    order.cook_status = CookStatus::Done;
    let r = order.to_response(1_001);
    assert_eq!(r.cook_status, CookStatus::InProgress);
}

#[test]
fn orders_to_responses_keeps_order_and_length() {
    let orders = vec![burger_order(1, 0), burger_order(2, 100)];
    let rs = orders_to_responses(&orders, 50);
    assert_eq!(rs.len(), 2);
    assert_eq!(rs[0].order_id, 1);
    assert_eq!(rs[0].cook_status, CookStatus::Done);
    assert_eq!(rs[1].order_id, 2);
    assert_eq!(rs[1].cook_status, CookStatus::InProgress);
}

#[test]
fn table_response_strips_store_id() {
    let table = Table {
        id: "0123456789abcdef01234567".to_string(),
        table_id: 3,
        orders: vec![burger_order(1, 0)],
    };
    let r = table.to_response(10);
    assert_eq!(r.table_id, 3);
    assert_eq!(r.orders.len(), 1);
    assert_eq!(r.orders[0].cook_status, CookStatus::Done);
    let rs = tables_to_responses(&vec![table], 10);
    assert_eq!(rs.len(), 1);
    assert_eq!(rs[0].table_id, 3);
}

#[test]
fn find_order_returns_first_match() {
    let mut second = burger_order(2, 50);
    second.item.item_name = "Soup".to_string();
    let table = Table {
        id: "0123456789abcdef01234567".to_string(),
        table_id: 3,
        orders: vec![burger_order(1, 0), burger_order(2, 10), second],
    };
    let found = table.find_order(2).expect("order 2 should be present");
    assert_eq!(found.ordered_time, 10);
    assert_eq!(found.item.item_name, "Burger");
    assert!(table.find_order(9).is_none());
}

#[test]
fn cook_status_names_round_trip() {
    assert_eq!(CookStatus::InProgress.to_string(), "InProgress");
    assert_eq!(CookStatus::Done.to_string(), "Done");
    assert_eq!(CookStatus::from_str("InProgress"), Ok(CookStatus::InProgress));
    assert_eq!(CookStatus::from_str("Done"), Ok(CookStatus::Done));
    assert_eq!(CookStatus::from_str("done"), Err(()));
    assert_eq!(CookStatus::from_str(""), Err(()));
}

#[test]
fn clock_reading_marks_old_orders_done() {
    // An order placed at the epoch with no cook time is long done by any
    // present-day clock reading.
    let order = Order {
        order_id: 1,
        table_id: 1,
        ordered_time: 0,
        cook_status: CookStatus::InProgress,
        item: Item { item_name: "Water".to_string(), cook_time: 0 },
    };
    let r = order_response_now(&order);
    assert_eq!(r.cook_status, CookStatus::Done);
    assert_eq!(r.order_id, 1);
}
