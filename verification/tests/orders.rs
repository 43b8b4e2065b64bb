use business_service::clock::Timestamp;
use business_service::errors::{ErrorKind, ServiceError};
use business_service::ident::EntityId;
use business_service::models::order::{
    checked_total, copy_items, CreateOrderDto, Order, OrderItem, OrderStatus,
    UpdateOrderStatusDto,
};
use business_service::repositories::order_engine::OrderTables;
use business_service::repositories::order_repository::OrderRepository;
use business_service::repositories::order_session::FreshIds;
use business_service::repositories::repository::Repository;
use business_service::services::order_service::OrderService;

fn item(product: u128, quantity: i32, price: i64) -> OrderItem {
    OrderItem { product_id: EntityId::new(product), quantity, price }
}

fn service() -> OrderService {
    OrderService::new(OrderRepository::new(OrderTables::new()))
}

fn order_at(id: u128, seconds: i64, items: Vec<OrderItem>) -> Order {
    Order::assemble(EntityId::new(id), Timestamp::new(seconds, 0), EntityId::new(7), items)
}

fn fresh(order: u128, lines: &[u128]) -> FreshIds {
    FreshIds { order: EntityId::new(order), lines: lines.iter().map(|v| EntityId::new(*v)).collect() }
}

#[test]
fn total_of_two_lines() {
    let items = vec![item(1, 2, 500), item(2, 1, 250)];
    assert_eq!(checked_total(&items), Some(1250));
}

#[test]
fn total_of_no_lines_is_zero() {
    assert_eq!(checked_total(&Vec::new()), Some(0));
}

#[test]
fn total_with_negative_lines_is_exact() {
    let items = vec![item(1, -3, 100), item(2, 5, -7), item(3, 1, 1000)];
    assert_eq!(checked_total(&items), Some(665));
}

#[test]
fn total_at_the_largest_amount_fits() {
    let items = vec![item(1, 1, i64::MAX)];
    assert_eq!(checked_total(&items), Some(i64::MAX));
    let items = vec![item(1, 1, i64::MIN)];
    assert_eq!(checked_total(&items), Some(i64::MIN));
}

#[test]
fn total_beyond_the_largest_amount_does_not_fit() {
    let items = vec![item(1, 1, i64::MAX), item(2, 1, 1)];
    assert_eq!(checked_total(&items), None);
    let items = vec![item(1, 2, i64::MAX)];
    assert_eq!(checked_total(&items), None);
    let items = vec![item(1, 1, i64::MIN), item(2, 1, -1)];
    assert_eq!(checked_total(&items), None);
}

#[test]
fn total_that_leaves_the_range_and_returns_fits() {
    let items = vec![item(1, i32::MAX, i64::MAX), item(2, i32::MAX, -i64::MAX), item(3, 1, 42)];
    assert_eq!(checked_total(&items), Some(42));
    let items = vec![item(1, i32::MIN, i64::MIN), item(2, i32::MIN, i64::MAX), item(3, i32::MIN, 1)];
    assert_eq!(checked_total(&items), Some(0));
}

#[test]
fn new_order_is_pending_with_total_and_one_time() {
    let customer = EntityId::new(99);
    let items = vec![item(1, 2, 500), item(2, 3, 100)];
    let order = Order::new(customer, copy_items(&items));
    assert_eq!(order.total, 1300);
    assert_eq!(order.status, OrderStatus::Pending);
    assert_eq!(order.customer_id, customer);
    assert_eq!(order.items, items);
    assert_eq!(order.created_at, order.updated_at);
    assert!(order.id.is_some());
}

#[test]
fn created_order_total_is_sum_of_lines() {
    let mut service = service();
    let items = vec![item(1, 2, 500), item(2, 7, 33), item(3, 1, 1)];
    let dto = CreateOrderDto { customer_id: EntityId::new(5), items: copy_items(&items) };
    let order = service.create_order(dto).unwrap();
    assert_eq!(order.total, 2 * 500 + 7 * 33 + 1);
    let mut sum = 0i64;
    for line in &order.items {
        sum += line.price * line.quantity as i64;
    }
    assert_eq!(order.total, sum);
}

#[test]
fn order_whose_total_does_not_fit_is_refused() {
    let mut service = service();
    let dto = CreateOrderDto {
        customer_id: EntityId::new(5),
        items: vec![item(1, 2, i64::MAX)],
    };
    let error = service.create_order(dto).unwrap_err();
    assert_eq!(error, ServiceError::ValidationError("Order total is out of range".to_string()));
    assert_eq!(service.get_all_orders().unwrap().len(), 0);
}

#[test]
fn status_update_of_missing_order_fails_and_writes_nothing() {
    let mut service = service();
    let dto = CreateOrderDto { customer_id: EntityId::new(5), items: vec![item(1, 1, 100)] };
    let existing = service.create_order(dto).unwrap();
    let before = service.get_all_orders().unwrap();
    let missing = EntityId::new(0x550e8400_e29b_41d4_a716_446655440000);
    let error = service
        .update_order_status(missing, UpdateOrderStatusDto { status: OrderStatus::Shipped })
        .unwrap_err();
    assert_eq!(
        error,
        ServiceError::NotFoundError(
            "Order with id 550e8400-e29b-41d4-a716-446655440000 not found".to_string()
        )
    );
    assert_eq!(error.kind(), ErrorKind::NotFound);
    assert_eq!(service.get_all_orders().unwrap(), before);
    assert_eq!(service.get_order(existing.id.unwrap()).unwrap(), Some(existing));
}

#[test]
fn created_order_is_found_with_its_lines() {
    let mut service = service();
    let items = vec![item(11, 2, 500), item(12, 1, 250), item(13, 4, 75)];
    let dto = CreateOrderDto { customer_id: EntityId::new(5), items: copy_items(&items) };
    let created = service.create_order(dto).unwrap();
    let found = service.get_order(created.id.unwrap()).unwrap().unwrap();
    assert_eq!(found.items.len(), 3);
    for line in &items {
        assert!(found.items.contains(line));
    }
    for line in &found.items {
        assert!(items.contains(line));
    }
    assert_eq!(found, created);
}

#[test]
fn update_replaces_the_whole_set_of_lines() {
    let mut repository = OrderRepository::new(OrderTables::new());
    let order = order_at(1, 100, vec![item(11, 1, 100), item(12, 2, 200), item(13, 3, 300)]);
    let stored = repository.create(order).unwrap();
    let id = stored.id.unwrap();
    assert_eq!(repository.find_by_id(id).unwrap().unwrap().items.len(), 3);
    let mut replacement = stored.duplicate();
    replacement.items = vec![item(14, 9, 10)];
    replacement.total = 90;
    let updated = repository.update(id, replacement).unwrap();
    assert_eq!(updated.items, vec![item(14, 9, 10)]);
    let found = repository.find_by_id(id).unwrap().unwrap();
    assert_eq!(found.items, vec![item(14, 9, 10)]);
    assert_eq!(found.items.len(), 1);
    assert_eq!(found.total, 90);
    assert_eq!(repository.tables.select_items(id).len(), 1);
}

#[test]
fn update_does_not_change_the_customer_or_the_time_of_creation() {
    let mut repository = OrderRepository::new(OrderTables::new());
    let stored = repository.create(order_at(1, 100, vec![item(11, 1, 100)])).unwrap();
    let id = stored.id.unwrap();
    let mut replacement = order_at(1, 999, vec![item(11, 1, 100)]);
    replacement.customer_id = EntityId::new(12345);
    replacement.status = OrderStatus::Delivered;
    let returned = repository.update(id, replacement).unwrap();
    assert_eq!(returned.customer_id, EntityId::new(12345));
    let found = repository.find_by_id(id).unwrap().unwrap();
    assert_eq!(found.customer_id, EntityId::new(7));
    assert_eq!(found.created_at, Timestamp::new(100, 0));
    assert_eq!(found.updated_at, Timestamp::new(999, 0));
    assert_eq!(found.status, OrderStatus::Delivered);
}

#[test]
fn update_of_missing_order_is_not_found() {
    let mut repository = OrderRepository::new(OrderTables::new());
    let error = repository.update(EntityId::new(1), order_at(1, 100, vec![item(1, 1, 1)])).unwrap_err();
    assert_eq!(
        error,
        ServiceError::NotFoundError(
            "Order with ID 00000000-0000-0000-0000-000000000001 not found".to_string()
        )
    );
    assert_eq!(repository.find_all().unwrap().len(), 0);
    assert_eq!(repository.tables.select_items(EntityId::new(1)).len(), 0);
}

#[test]
fn delete_removes_the_order_and_its_lines() {
    let mut service = service();
    let kept = service
        .create_order(CreateOrderDto { customer_id: EntityId::new(5), items: vec![item(1, 1, 100)] })
        .unwrap();
    let gone = service
        .create_order(CreateOrderDto {
            customer_id: EntityId::new(6),
            items: vec![item(2, 1, 100), item(3, 2, 50)],
        })
        .unwrap();
    let id = gone.id.unwrap();
    assert_eq!(service.repository.tables.select_items(id).len(), 2);
    service.delete_order(id).unwrap();
    assert_eq!(service.get_order(id).unwrap(), None);
    assert_eq!(service.repository.tables.select_items(id).len(), 0);
    assert_eq!(service.repository.tables.select_order(id), None);
    assert_eq!(service.get_order(kept.id.unwrap()).unwrap(), Some(kept));
    assert_eq!(service.get_all_orders().unwrap().len(), 1);
}

#[test]
fn delete_of_missing_order_is_not_found() {
    let mut service = service();
    let error = service.delete_order(EntityId::new(0xabc)).unwrap_err();
    assert_eq!(
        error,
        ServiceError::NotFoundError(
            "Order with ID 00000000-0000-0000-0000-000000000abc not found".to_string()
        )
    );
}

#[test]
fn order_scenario_create_then_ship() {
    let mut service = service();
    let customer = EntityId::new(0x1111);
    let product = EntityId::new(0x2222);
    let dto = CreateOrderDto {
        customer_id: customer,
        items: vec![OrderItem { product_id: product, quantity: 2, price: 500 }],
    };
    let created = service.create_order(dto).unwrap();
    assert_eq!(created.total, 1000);
    assert_eq!(created.status, OrderStatus::Pending);
    let id = created.id.unwrap();
    let shipped = service
        .update_order_status(id, UpdateOrderStatusDto { status: OrderStatus::Shipped })
        .unwrap();
    assert_eq!(shipped.status, OrderStatus::Shipped);
    let found = service.get_order(id).unwrap().unwrap();
    assert_eq!(found.status, OrderStatus::Shipped);
    assert_eq!(found.total, 1000);
    assert_eq!(found.items, vec![OrderItem { product_id: product, quantity: 2, price: 500 }]);
    assert_eq!(found.customer_id, customer);
    assert_eq!(found.created_at, created.created_at);
}

#[test]
fn orders_are_listed_newest_first() {
    let mut repository = OrderRepository::new(OrderTables::new());
    repository.create(order_at(1, 200, vec![item(1, 1, 1)])).unwrap();
    repository.create(order_at(2, 100, vec![])).unwrap();
    repository.create(order_at(3, 300, vec![item(2, 2, 2), item(3, 3, 3)])).unwrap();
    let mut middle = order_at(4, 200, vec![]);
    middle.created_at = Timestamp::new(200, 5);
    repository.create(middle).unwrap();
    let listed = repository.find_all().unwrap();
    let ids: Vec<u128> = listed.iter().map(|order| order.id.unwrap().value).collect();
    assert_eq!(ids, vec![3, 4, 1, 2]);
    assert_eq!(listed[0].items, vec![item(2, 2, 2), item(3, 3, 3)]);
    assert_eq!(listed[2].items, vec![item(1, 1, 1)]);
    assert_eq!(listed[3].items, vec![]);
}

#[test]
fn empty_store_lists_nothing() {
    let repository = OrderRepository::new(OrderTables::new());
    assert_eq!(repository.find_all().unwrap(), Vec::new());
    assert_eq!(repository.find_by_id(EntityId::new(1)).unwrap(), None);
}

#[test]
fn create_keeps_the_identifier_that_the_order_carries() {
    let mut repository = OrderRepository::new(OrderTables::new());
    let stored = repository.create_with(order_at(77, 1, vec![item(1, 1, 1)]), fresh(1, &[2])).unwrap();
    assert_eq!(stored.id, Some(EntityId::new(77)));
    assert_eq!(repository.tables.select_items(EntityId::new(77))[0].id, EntityId::new(2));
}

#[test]
fn create_gives_an_order_without_identifier_the_fresh_one() {
    let mut repository = OrderRepository::new(OrderTables::new());
    let mut order = order_at(77, 1, vec![item(1, 1, 1)]);
    order.id = None;
    let stored = repository.create_with(order, fresh(500, &[2])).unwrap();
    assert_eq!(stored.id, Some(EntityId::new(500)));
    assert!(repository.find_by_id(EntityId::new(500)).unwrap().is_some());
}

#[test]
fn create_mints_an_identifier_where_the_order_carries_none() {
    let mut repository = OrderRepository::new(OrderTables::new());
    let mut order = order_at(77, 1, vec![item(1, 1, 1)]);
    order.id = None;
    let stored = repository.create(order).unwrap();
    let id = stored.id.unwrap();
    assert_eq!(id.value & 0xf000_c000_0000_0000_0000, 0x4000_8000_0000_0000_0000);
    assert!(repository.find_by_id(id).unwrap().is_some());
}

#[test]
fn create_with_a_taken_identifier_fails_and_changes_nothing() {
    let mut repository = OrderRepository::new(OrderTables::new());
    repository.create_with(order_at(1, 1, vec![item(1, 1, 1)]), fresh(0, &[10])).unwrap();
    let before = repository.find_all().unwrap();
    let error = repository
        .create_with(order_at(1, 2, vec![item(9, 9, 9)]), fresh(0, &[11]))
        .unwrap_err();
    assert_eq!(
        error,
        ServiceError::DatabaseError(
            "duplicate key value violates unique constraint \"orders_pkey\"".to_string()
        )
    );
    assert_eq!(repository.find_all().unwrap(), before);
}

#[test]
fn create_that_fails_on_a_line_leaves_no_order_row() {
    let mut repository = OrderRepository::new(OrderTables::new());
    repository.create_with(order_at(1, 1, vec![item(1, 1, 1)]), fresh(0, &[10])).unwrap();
    let error = repository
        .create_with(order_at(2, 2, vec![item(5, 5, 5), item(6, 6, 6)]), fresh(0, &[11, 10]))
        .unwrap_err();
    assert_eq!(
        error,
        ServiceError::DatabaseError(
            "duplicate key value violates unique constraint \"order_items_pkey\"".to_string()
        )
    );
    assert_eq!(repository.find_by_id(EntityId::new(2)).unwrap(), None);
    assert_eq!(repository.tables.select_items(EntityId::new(2)).len(), 0);
    assert_eq!(repository.find_all().unwrap().len(), 1);
}

#[test]
fn update_that_fails_on_a_line_leaves_the_old_lines() {
    let mut repository = OrderRepository::new(OrderTables::new());
    repository.create_with(order_at(1, 1, vec![item(1, 1, 1)]), fresh(0, &[10])).unwrap();
    repository.create_with(order_at(2, 2, vec![item(2, 2, 2)]), fresh(0, &[20])).unwrap();
    let mut replacement = order_at(2, 2, vec![item(7, 7, 7), item(8, 8, 8)]);
    replacement.status = OrderStatus::Cancelled;
    let error = repository.update_with(EntityId::new(2), replacement, fresh(0, &[21, 10])).unwrap_err();
    assert_eq!(error.kind(), ErrorKind::Database);
    let found = repository.find_by_id(EntityId::new(2)).unwrap().unwrap();
    assert_eq!(found.items, vec![item(2, 2, 2)]);
    assert_eq!(found.status, OrderStatus::Pending);
}

#[test]
fn status_tags_are_the_lowercase_names() {
    assert_eq!(OrderRepository::status_to_str(&OrderStatus::Pending), "pending");
    assert_eq!(OrderRepository::status_to_str(&OrderStatus::Processing), "processing");
    assert_eq!(OrderRepository::status_to_str(&OrderStatus::Shipped), "shipped");
    assert_eq!(OrderRepository::status_to_str(&OrderStatus::Delivered), "delivered");
    assert_eq!(OrderRepository::status_to_str(&OrderStatus::Cancelled), "cancelled");
}

#[test]
fn status_tags_are_read_back() {
    for status in [
        OrderStatus::Pending,
        OrderStatus::Processing,
        OrderStatus::Shipped,
        OrderStatus::Delivered,
        OrderStatus::Cancelled,
    ] {
        assert_eq!(OrderRepository::status_from_str(OrderRepository::status_to_str(&status)), status);
    }
}

#[test]
fn unknown_status_tag_reads_as_pending() {
    assert_eq!(OrderRepository::status_from_str("refunded"), OrderStatus::Pending);
    assert_eq!(OrderRepository::status_from_str(""), OrderStatus::Pending);
    assert_eq!(OrderRepository::status_from_str("Shipped"), OrderStatus::Pending);
}

#[test]
fn every_status_survives_the_store() {
    let mut service = service();
    let created = service
        .create_order(CreateOrderDto { customer_id: EntityId::new(5), items: vec![item(1, 1, 1)] })
        .unwrap();
    let id = created.id.unwrap();
    for status in [
        OrderStatus::Processing,
        OrderStatus::Shipped,
        OrderStatus::Delivered,
        OrderStatus::Cancelled,
        OrderStatus::Pending,
    ] {
        service.update_order_status(id, UpdateOrderStatusDto { status }).unwrap();
        assert_eq!(service.get_order(id).unwrap().unwrap().status, status);
    }
}

#[test]
fn plan_status_update_changes_status_and_time_only() {
    let stored = order_at(1, 100, vec![item(1, 2, 3)]);
    let planned = OrderService::plan_status_update(
        EntityId::new(1),
        Some(stored.duplicate()),
        UpdateOrderStatusDto { status: OrderStatus::Delivered },
        Timestamp::new(500, 9),
    )
    .unwrap();
    let mut expected = stored;
    expected.status = OrderStatus::Delivered;
    expected.updated_at = Timestamp::new(500, 9);
    assert_eq!(planned, expected);
}

#[test]
fn plan_order_builds_a_pending_order() {
    let dto = CreateOrderDto { customer_id: EntityId::new(3), items: vec![item(1, 2, 3), item(4, 5, 6)] };
    let order = OrderService::plan_order(dto, EntityId::new(8), Timestamp::new(10, 20)).unwrap();
    assert_eq!(
        order,
        Order {
            id: Some(EntityId::new(8)),
            customer_id: EntityId::new(3),
            items: vec![item(1, 2, 3), item(4, 5, 6)],
            total: 36,
            status: OrderStatus::Pending,
            created_at: Timestamp::new(10, 20),
            updated_at: Timestamp::new(10, 20),
        }
    );
}
