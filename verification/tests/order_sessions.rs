use business_service::clock::Timestamp;
use business_service::errors::ServiceError;
use business_service::ident::EntityId;
use business_service::models::order::{Order, OrderItem, OrderStatus};
use business_service::repositories::order_engine::OrderTables;
use business_service::repositories::order_session::{
    FreshIds, OrderOutcome, OrderRequest, OrderSession, OrderStep, Purpose,
};
use business_service::repositories::order_tables::Violation;
use business_service::repositories::relational::{
    ItemRow, OrderQuery, OrderReply, OrderRow, OrderWrite,
};

fn id(value: u128) -> EntityId {
    EntityId::new(value)
}

fn no_ids() -> FreshIds {
    FreshIds { order: id(0), lines: Vec::new() }
}

fn row(value: u128, status: &str, seconds: i64) -> OrderRow {
    OrderRow {
        id: id(value),
        customer_id: id(7),
        total: 1000,
        status: status.to_string(),
        created_at: Timestamp::new(seconds, 0),
        updated_at: Timestamp::new(seconds, 1),
    }
}

fn line(value: u128, order: u128, product: u128) -> ItemRow {
    ItemRow { id: id(value), order_id: id(order), product_id: id(product), quantity: 2, price: 500 }
}

fn sample_order() -> Order {
    Order {
        id: None,
        customer_id: id(7),
        items: vec![
            OrderItem { product_id: id(31), quantity: 2, price: 500 },
            OrderItem { product_id: id(32), quantity: 1, price: 250 },
        ],
        total: 1250,
        status: OrderStatus::Processing,
        created_at: Timestamp::new(10, 0),
        updated_at: Timestamp::new(11, 0),
    }
}

#[test]
fn find_asks_for_the_row_then_for_the_lines() {
    let (session, step) = OrderSession::begin(OrderRequest::FindById(id(5)), no_ids());
    assert_eq!(step, OrderStep::Ask(OrderQuery::SelectOrder(id(5))));
    let (session, step) = session.advance(OrderReply::Order(Some(row(5, "shipped", 100))));
    assert_eq!(step, OrderStep::Ask(OrderQuery::SelectItems(id(5))));
    let (session, step) = session.advance(OrderReply::Items(vec![line(1, 5, 31)]));
    assert_eq!(session, OrderSession::Closed);
    assert_eq!(
        step,
        OrderStep::Done(Ok(OrderOutcome::Found(Some(Order {
            id: Some(id(5)),
            customer_id: id(7),
            items: vec![OrderItem { product_id: id(31), quantity: 2, price: 500 }],
            total: 1000,
            status: OrderStatus::Shipped,
            created_at: Timestamp::new(100, 0),
            updated_at: Timestamp::new(100, 1),
        }))))
    );
}

#[test]
fn find_of_a_missing_row_is_no_error() {
    let (session, _) = OrderSession::begin(OrderRequest::FindById(id(5)), no_ids());
    let (_, step) = session.advance(OrderReply::Order(None));
    assert_eq!(step, OrderStep::Done(Ok(OrderOutcome::Found(None))));
}

#[test]
fn unknown_tag_in_a_row_is_read_as_pending() {
    let (session, _) = OrderSession::begin(OrderRequest::FindById(id(5)), no_ids());
    let (session, _) = session.advance(OrderReply::Order(Some(row(5, "on hold", 100))));
    let (_, step) = session.advance(OrderReply::Items(Vec::new()));
    match step {
        OrderStep::Done(Ok(OrderOutcome::Found(Some(order)))) => {
            assert_eq!(order.status, OrderStatus::Pending)
        }
        other => panic!("unexpected step {:?}", other),
    }
}

#[test]
fn create_sends_one_transaction_with_the_order_row_first() {
    let fresh = FreshIds { order: id(900), lines: vec![id(901), id(902)] };
    let (session, step) = OrderSession::begin(OrderRequest::Create(sample_order()), fresh);
    let expected_row = OrderRow {
        id: id(900),
        customer_id: id(7),
        total: 1250,
        status: "processing".to_string(),
        created_at: Timestamp::new(10, 0),
        updated_at: Timestamp::new(11, 0),
    };
    assert_eq!(
        step,
        OrderStep::Ask(OrderQuery::Transaction(vec![
            OrderWrite::InsertOrder(expected_row),
            OrderWrite::InsertItem(ItemRow {
                id: id(901),
                order_id: id(900),
                product_id: id(31),
                quantity: 2,
                price: 500
            }),
            OrderWrite::InsertItem(ItemRow {
                id: id(902),
                order_id: id(900),
                product_id: id(32),
                quantity: 1,
                price: 250
            }),
        ]))
    );
    let (_, step) = session.advance(OrderReply::Written);
    let mut stored = sample_order();
    stored.id = Some(id(900));
    assert_eq!(step, OrderStep::Done(Ok(OrderOutcome::Stored(stored))));
}

#[test]
fn update_checks_existence_then_replaces_in_one_transaction() {
    let fresh = FreshIds { order: id(0), lines: vec![id(901), id(902)] };
    let (session, step) = OrderSession::begin(OrderRequest::Update(id(5), sample_order()), fresh);
    assert_eq!(step, OrderStep::Ask(OrderQuery::SelectOrder(id(5))));
    let (session, step) = session.advance(OrderReply::Order(Some(row(5, "pending", 1))));
    assert_eq!(step, OrderStep::Ask(OrderQuery::SelectItems(id(5))));
    let (session, step) = session.advance(OrderReply::Items(vec![line(1, 5, 30)]));
    assert_eq!(
        step,
        OrderStep::Ask(OrderQuery::Transaction(vec![
            OrderWrite::UpdateOrder {
                id: id(5),
                total: 1250,
                status: "processing".to_string(),
                updated_at: Timestamp::new(11, 0)
            },
            OrderWrite::DeleteItems(id(5)),
            OrderWrite::InsertItem(ItemRow {
                id: id(901),
                order_id: id(5),
                product_id: id(31),
                quantity: 2,
                price: 500
            }),
            OrderWrite::InsertItem(ItemRow {
                id: id(902),
                order_id: id(5),
                product_id: id(32),
                quantity: 1,
                price: 250
            }),
        ]))
    );
    let (_, step) = session.advance(OrderReply::Written);
    let mut stored = sample_order();
    stored.id = Some(id(5));
    assert_eq!(step, OrderStep::Done(Ok(OrderOutcome::Stored(stored))));
}

#[test]
fn update_of_a_missing_row_ends_before_any_write() {
    let fresh = FreshIds { order: id(0), lines: vec![id(901), id(902)] };
    let (session, _) = OrderSession::begin(OrderRequest::Update(id(5), sample_order()), fresh);
    let (session, step) = session.advance(OrderReply::Order(None));
    assert_eq!(session, OrderSession::Closed);
    assert_eq!(
        step,
        OrderStep::Done(Err(ServiceError::NotFoundError(
            "Order with ID 00000000-0000-0000-0000-000000000005 not found".to_string()
        )))
    );
}

#[test]
fn delete_checks_existence_then_deletes_the_row_only() {
    let (session, step) = OrderSession::begin(OrderRequest::Delete(id(5)), no_ids());
    assert_eq!(step, OrderStep::Ask(OrderQuery::SelectOrder(id(5))));
    let (session, _) = session.advance(OrderReply::Order(Some(row(5, "pending", 1))));
    let (session, step) = session.advance(OrderReply::Items(vec![line(1, 5, 30)]));
    assert_eq!(
        step,
        OrderStep::Ask(OrderQuery::Transaction(vec![OrderWrite::DeleteOrder(id(5))]))
    );
    let (_, step) = session.advance(OrderReply::Written);
    assert_eq!(step, OrderStep::Done(Ok(OrderOutcome::Deleted)));
}

#[test]
fn list_asks_for_the_lines_of_each_row_in_turn() {
    let (session, step) = OrderSession::begin(OrderRequest::FindAll, no_ids());
    assert_eq!(step, OrderStep::Ask(OrderQuery::SelectOrders));
    let (session, step) =
        session.advance(OrderReply::Orders(vec![row(2, "shipped", 200), row(1, "pending", 100)]));
    assert_eq!(step, OrderStep::Ask(OrderQuery::SelectItems(id(2))));
    let (session, step) = session.advance(OrderReply::Items(vec![line(10, 2, 31), line(11, 2, 32)]));
    assert_eq!(step, OrderStep::Ask(OrderQuery::SelectItems(id(1))));
    let (_, step) = session.advance(OrderReply::Items(Vec::new()));
    match step {
        OrderStep::Done(Ok(OrderOutcome::Listed(orders))) => {
            assert_eq!(orders.len(), 2);
            assert_eq!(orders[0].id, Some(id(2)));
            assert_eq!(orders[0].items.len(), 2);
            assert_eq!(orders[0].status, OrderStatus::Shipped);
            assert_eq!(orders[1].id, Some(id(1)));
            assert_eq!(orders[1].items.len(), 0);
        }
        other => panic!("unexpected step {:?}", other),
    }
}

#[test]
fn list_of_no_rows_is_empty_without_further_steps() {
    let (session, _) = OrderSession::begin(OrderRequest::FindAll, no_ids());
    let (_, step) = session.advance(OrderReply::Orders(Vec::new()));
    assert_eq!(step, OrderStep::Done(Ok(OrderOutcome::Listed(Vec::new()))));
}

#[test]
fn failure_of_the_engine_is_a_database_error_with_its_message() {
    let (session, _) = OrderSession::begin(OrderRequest::FindAll, no_ids());
    let (session, _) = session.advance(OrderReply::Orders(vec![row(2, "shipped", 200)]));
    let (session, step) = session.advance(OrderReply::Failed("connection reset".to_string()));
    assert_eq!(session, OrderSession::Closed);
    assert_eq!(
        step,
        OrderStep::Done(Err(ServiceError::DatabaseError("connection reset".to_string())))
    );
    let (session, _) = OrderSession::begin(OrderRequest::Create(sample_order()), FreshIds {
        order: id(1),
        lines: vec![id(2), id(3)],
    });
    let (_, step) = session.advance(OrderReply::Failed("deadlock detected".to_string()));
    assert_eq!(
        step,
        OrderStep::Done(Err(ServiceError::DatabaseError("deadlock detected".to_string())))
    );
}

#[test]
fn answer_that_does_not_fit_is_a_database_error() {
    let (session, _) = OrderSession::begin(OrderRequest::FindById(id(5)), no_ids());
    let (session, step) = session.advance(OrderReply::Written);
    assert_eq!(
        step,
        OrderStep::Done(Err(ServiceError::DatabaseError(
            "unexpected reply from the storage engine".to_string()
        )))
    );
    let (_, step) = session.advance(OrderReply::Written);
    assert_eq!(
        step,
        OrderStep::Done(Err(ServiceError::DatabaseError(
            "unexpected reply from the storage engine".to_string()
        )))
    );
    let (_, step) = OrderSession::AwaitItems(row(1, "pending", 1), Purpose::Find)
        .advance(OrderReply::Orders(Vec::new()));
    assert_eq!(
        step,
        OrderStep::Done(Err(ServiceError::DatabaseError(
            "unexpected reply from the storage engine".to_string()
        )))
    );
}

#[test]
fn fresh_identifiers_are_minted_one_per_line() {
    let fresh = FreshIds::mint(3);
    assert_eq!(fresh.lines.len(), 3);
    assert_ne!(fresh.lines[0], fresh.lines[1]);
    assert_ne!(fresh.lines[1], fresh.lines[2]);
    assert_ne!(fresh.order, fresh.lines[0]);
    assert_eq!(OrderRequest::Create(sample_order()).lines_needed(), 2);
    assert_eq!(OrderRequest::FindAll.lines_needed(), 0);
}

#[test]
fn tables_refuse_a_line_without_its_order() {
    let mut tables = OrderTables::new();
    assert_eq!(tables.write(&OrderWrite::InsertItem(line(1, 5, 30))), Err(Violation::MissingOrder));
    assert_eq!(tables.write(&OrderWrite::InsertOrder(row(5, "pending", 1))), Ok(()));
    assert_eq!(tables.write(&OrderWrite::InsertItem(line(1, 5, 30))), Ok(()));
    assert_eq!(tables.write(&OrderWrite::InsertItem(line(1, 5, 31))), Err(Violation::DuplicateItem));
    assert_eq!(
        tables.write(&OrderWrite::InsertOrder(row(5, "shipped", 2))),
        Err(Violation::DuplicateOrder)
    );
    assert_eq!(tables.select_items(id(5)), vec![line(1, 5, 30)]);
}

#[test]
fn tables_refusal_messages() {
    assert_eq!(
        Violation::MissingOrder.message_text(),
        "insert on table \"order_items\" violates foreign key constraint \"order_items_order_id_fkey\""
    );
    assert_eq!(
        Violation::DuplicateItem.message_text(),
        "duplicate key value violates unique constraint \"order_items_pkey\""
    );
    assert_eq!(
        Violation::DuplicateOrder.message_text(),
        "duplicate key value violates unique constraint \"orders_pkey\""
    );
}

#[test]
fn transaction_takes_effect_as_a_whole_or_not_at_all() {
    let mut tables = OrderTables::new();
    let reply = tables.answer(&OrderQuery::Transaction(vec![
        OrderWrite::InsertOrder(row(5, "pending", 1)),
        OrderWrite::InsertItem(line(1, 5, 30)),
        OrderWrite::InsertItem(line(2, 6, 30)),
    ]));
    assert_eq!(
        reply,
        OrderReply::Failed(
            "insert on table \"order_items\" violates foreign key constraint \"order_items_order_id_fkey\""
                .to_string()
        )
    );
    assert_eq!(tables, OrderTables::new());
    let reply = tables.answer(&OrderQuery::Transaction(vec![
        OrderWrite::InsertOrder(row(5, "pending", 1)),
        OrderWrite::InsertItem(line(1, 5, 30)),
    ]));
    assert_eq!(reply, OrderReply::Written);
    assert_eq!(tables.answer(&OrderQuery::SelectItems(id(5))), OrderReply::Items(vec![line(1, 5, 30)]));
    assert_eq!(
        tables.answer(&OrderQuery::SelectOrder(id(5))),
        OrderReply::Order(Some(row(5, "pending", 1)))
    );
}

#[test]
fn deleting_an_order_row_deletes_its_line_rows() {
    let mut tables = OrderTables::new();
    tables.write(&OrderWrite::InsertOrder(row(5, "pending", 1))).unwrap();
    tables.write(&OrderWrite::InsertOrder(row(6, "pending", 2))).unwrap();
    tables.write(&OrderWrite::InsertItem(line(1, 5, 30))).unwrap();
    tables.write(&OrderWrite::InsertItem(line(2, 6, 30))).unwrap();
    tables.write(&OrderWrite::InsertItem(line(3, 5, 31))).unwrap();
    tables.write(&OrderWrite::DeleteOrder(id(5))).unwrap();
    assert_eq!(tables.select_items(id(5)), Vec::new());
    assert_eq!(tables.select_items(id(6)), vec![line(2, 6, 30)]);
    assert_eq!(tables.select_order(id(5)), None);
    assert_eq!(tables.select_orders(), vec![row(6, "pending", 2)]);
    assert_eq!(tables.read(&OrderQuery::Transaction(Vec::new())), None);
}

#[test]
fn update_statement_sets_total_status_and_time_only() {
    let mut tables = OrderTables::new();
    tables.write(&OrderWrite::InsertOrder(row(5, "pending", 1))).unwrap();
    tables
        .write(&OrderWrite::UpdateOrder {
            id: id(5),
            total: 77,
            status: "delivered".to_string(),
            updated_at: Timestamp::new(50, 0),
        })
        .unwrap();
    let mut expected = row(5, "delivered", 1);
    expected.total = 77;
    expected.updated_at = Timestamp::new(50, 0);
    assert_eq!(tables.select_order(id(5)), Some(expected));
    tables
        .write(&OrderWrite::UpdateOrder {
            id: id(9),
            total: 1,
            status: "x".to_string(),
            updated_at: Timestamp::new(1, 0),
        })
        .unwrap();
    assert_eq!(tables.select_orders().len(), 1);
}

#[test]
fn sessions_know_whether_they_are_well_formed() {
    let (session, _) = OrderSession::begin(
        OrderRequest::Update(id(5), sample_order()),
        FreshIds { order: id(0), lines: vec![id(1), id(2)] },
    );
    assert!(session.is_well_formed());
    assert!(!OrderSession::AwaitOrder(id(5), Purpose::Update(sample_order(), vec![id(1)]))
        .is_well_formed());
    assert!(!OrderSession::AwaitItemsOf(Vec::new(), Vec::new()).is_well_formed());
    assert!(OrderSession::AwaitItemsOf(vec![row(1, "pending", 1)], Vec::new()).is_well_formed());
    assert!(OrderSession::Closed.is_well_formed());
}
