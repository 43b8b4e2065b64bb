//! What the calls on the relational order store do to the tables, and the
//! laws that follow.

use crate::errors::ServiceErrorView;
use crate::ident::EntityId;
use crate::models::order::{OrderItem, OrderView};
use crate::repositories::order_repository::{
    effect, find_in, lemma_status_round_trip, list_in, status_tag,
};
use crate::repositories::order_session::{
    advance_spec, create_id, create_statements, delete_statements, line_inserts, line_items,
    line_row, order_not_found, row_of, update_statements, FreshIdsView, OrderOutcomeView,
    OrderRequestView, OrderSessionView, OrderStepView, PurposeView,
};
use crate::repositories::order_tables::{
    has_order, later, lemma_absent_order_has_no_lines, lemma_deleted_order, lemma_inserted_order,
    lemma_lines_of_add, lemma_lines_of_all, lemma_lines_of_none, lemma_lines_of_others,
    lemma_order_is, lemma_revised_order, lemma_write_all_keeps_wf, lines_of, revised, TablesView,
    Violation,
};
use crate::repositories::relational::{ItemRow, OrderReplyView, OrderWriteView};
use vstd::prelude::*;

verus! {

/// The line rows that store the lines of an order, each under its
/// identifier.
pub open spec fn line_rows(items: Seq<OrderItem>, ids: Seq<EntityId>, order_id: EntityId) -> Seq<
    ItemRow,
> {
    Seq::new(items.len(), |i: int| line_row(items[i], ids[i], order_id))
}

/// The order that is found after an update: the stored order with its
/// lines, total, status and time of update replaced by those of the update.
/// The customer and the time of creation stay.
pub open spec fn replaced(stored: OrderView, update: OrderView) -> OrderView {
    OrderView {
        items: update.items,
        total: update.total,
        status: update.status,
        updated_at: update.updated_at,
        ..stored
    }
}

/// Line rows store the lines that they were made from.
pub proof fn lemma_line_rows_store_items(
    items: Seq<OrderItem>,
    ids: Seq<EntityId>,
    order_id: EntityId,
)
    ensures
        line_items(line_rows(items, ids, order_id)) == items,
        lines_of(line_rows(items, ids, order_id), order_id) == line_rows(items, ids, order_id),
        forall|other: EntityId|
            other != order_id ==> #[trigger] lines_of(line_rows(items, ids, order_id), other)
                == Seq::<ItemRow>::empty(),
{
    let rows = line_rows(items, ids, order_id);
    assert(line_items(rows) =~= items);
    lemma_lines_of_all(rows, order_id);
    assert forall|other: EntityId| other != order_id implies #[trigger] lines_of(rows, other)
        == Seq::<ItemRow>::empty() by {
        lemma_lines_of_none(rows, other);
    }
}

/// Where the engine accepts the inserts of the lines of an order, the order
/// rows are as before and the line rows are the old ones followed by the new.
pub proof fn lemma_insert_lines(
    tables: TablesView,
    items: Seq<OrderItem>,
    ids: Seq<EntityId>,
    order_id: EntityId,
)
    requires
        ids.len() == items.len(),
    ensures
        tables.write_all(line_inserts(items, ids, order_id)) matches Ok(after) ==> {
            &&& after.orders == tables.orders
            &&& after.items == tables.items + line_rows(items, ids, order_id)
        },
    decreases items.len(),
{
    let statements = line_inserts(items, ids, order_id);
    if items.len() == 0 {
        assert(tables.items + line_rows(items, ids, order_id) =~= tables.items);
    } else {
        let first = line_row(items[0], ids[0], order_id);
        assert(statements.first() == OrderWriteView::InsertItem(first));
        assert(statements.drop_first() =~= line_inserts(
            items.drop_first(),
            ids.drop_first(),
            order_id,
        ));
        if tables.write(statements.first()) is Ok {
            let next = tables.write(statements.first())->Ok_0;
            lemma_insert_lines(next, items.drop_first(), ids.drop_first(), order_id);
            if next.write_all(statements.drop_first()) is Ok {
                let after = next.write_all(statements.drop_first())->Ok_0;
                assert(tables.items.push(first) + line_rows(
                    items.drop_first(),
                    ids.drop_first(),
                    order_id,
                ) =~= tables.items + line_rows(items, ids, order_id));
            }
        }
    }
}

/// What the tables hold after the transaction that stores a new order.
pub proof fn lemma_created(tables: TablesView, order: OrderView, id: EntityId, ids: Seq<EntityId>)
    requires
        tables.wf(),
        ids.len() == order.items.len(),
        tables.write_all(create_statements(order, id, ids)) is Ok,
    ensures
        ({
            let after = tables.write_all(create_statements(order, id, ids))->Ok_0;
            &&& !has_order(tables.orders, id)
            &&& has_order(after.orders, id)
            &&& after.order(id) == Some(row_of(order, id))
            &&& after.lines(id) == line_rows(order.items, ids, id)
            &&& forall|other: EntityId| other != id ==> #[trigger] after.order(other) == tables.order(other)
            &&& forall|other: EntityId| other != id ==> #[trigger] after.lines(other) == tables.lines(other)
        }),
{
    let statements = create_statements(order, id, ids);
    let row = row_of(order, id);
    let inserts = line_inserts(order.items, ids, id);
    let rows = line_rows(order.items, ids, id);
    assert(statements.first() == OrderWriteView::InsertOrder(row));
    assert(statements.drop_first() =~= inserts);
    let next = tables.write(OrderWriteView::InsertOrder(row))->Ok_0;
    lemma_inserted_order(tables, row);
    lemma_insert_lines(next, order.items, ids, id);
    let after = next.write_all(inserts)->Ok_0;
    assert(after.orders == next.orders);
    assert(after.items == tables.items + rows);
    lemma_line_rows_store_items(order.items, ids, id);
    lemma_absent_order_has_no_lines(tables, id);
    lemma_lines_of_add(tables.items, rows, id);
    assert(after.lines(id) =~= rows);
    assert forall|other: EntityId| other != id implies #[trigger] after.order(other)
        == tables.order(other) by {
        assert(next.order(other) == tables.order(other));
    }
    assert forall|other: EntityId| other != id implies #[trigger] after.lines(other)
        == tables.lines(other) by {
        lemma_lines_of_add(tables.items, rows, other);
        assert(lines_of(rows, other) == Seq::<ItemRow>::empty());
        assert(tables.lines(other) + Seq::<ItemRow>::empty() =~= tables.lines(other));
    }
}

/// What the tables hold after the transaction that replaces an order.
pub proof fn lemma_updated(tables: TablesView, order: OrderView, id: EntityId, ids: Seq<EntityId>)
    requires
        tables.wf(),
        ids.len() == order.items.len(),
        has_order(tables.orders, id),
        tables.write_all(update_statements(order, id, ids)) is Ok,
    ensures
        ({
            let after = tables.write_all(update_statements(order, id, ids))->Ok_0;
            &&& after.order(id) == Some(
                revised(
                    tables.order(id)->0,
                    order.total,
                    status_tag(order.status),
                    order.updated_at,
                ),
            )
            &&& after.lines(id) == line_rows(order.items, ids, id)
            &&& forall|other: EntityId| #[trigger] has_order(after.orders, other) == has_order(tables.orders, other)
            &&& forall|other: EntityId| other != id ==> #[trigger] after.order(other) == tables.order(other)
            &&& forall|other: EntityId| other != id ==> #[trigger] after.lines(other) == tables.lines(other)
        }),
{
    let statements = update_statements(order, id, ids);
    let revise = OrderWriteView::UpdateOrder {
        id,
        total: order.total,
        status: status_tag(order.status),
        updated_at: order.updated_at,
    };
    let inserts = line_inserts(order.items, ids, id);
    let rows = line_rows(order.items, ids, id);
    assert(statements.first() == revise);
    assert(statements.drop_first().first() == OrderWriteView::DeleteItems(id));
    assert(statements.drop_first().drop_first() =~= inserts);
    lemma_revised_order(tables, id, order.total, status_tag(order.status), order.updated_at);
    let first = tables.write(revise)->Ok_0;
    let second = first.write(OrderWriteView::DeleteItems(id))->Ok_0;
    assert(first.write_all(statements.drop_first()) == second.write_all(inserts));
    lemma_insert_lines(second, order.items, ids, id);
    let after = second.write_all(inserts)->Ok_0;
    lemma_lines_of_others(tables.items, id);
    lemma_line_rows_store_items(order.items, ids, id);
    lemma_lines_of_add(second.items, rows, id);
    assert(after.lines(id) =~= rows);
    assert forall|other: EntityId| other != id implies #[trigger] after.order(other)
        == tables.order(other) by {
        assert(first.order(other) == tables.order(other));
    }
    assert forall|other: EntityId| other != id implies #[trigger] after.lines(other)
        == tables.lines(other) by {
        lemma_lines_of_add(second.items, rows, other);
        assert(lines_of(rows, other) == Seq::<ItemRow>::empty());
        assert(lines_of(second.items, other) == lines_of(tables.items, other));
        assert(tables.lines(other) + Seq::<ItemRow>::empty() =~= tables.lines(other));
    }
    assert forall|other: EntityId| #[trigger] has_order(after.orders, other) == has_order(
        tables.orders,
        other,
    ) by {
        assert(has_order(first.orders, other) == has_order(tables.orders, other));
    }
}

/// An order that was stored is found as it was stored: the same customer,
/// lines, total, status and times, under the identifier it was given.
pub proof fn law_create_then_find(tables: TablesView, order: OrderView, fresh: FreshIdsView)
    requires
        tables.wf(),
        fresh.lines.len() == order.items.len(),
        effect(tables, OrderRequestView::Create(order), fresh).1 is Ok,
    ensures
        ({
            let id = create_id(order, fresh.order);
            let after = effect(tables, OrderRequestView::Create(order), fresh).0;
            &&& effect(tables, OrderRequestView::Create(order), fresh).1 == Ok::<
                OrderOutcomeView,
                ServiceErrorView,
            >(OrderOutcomeView::Stored(order.with_id(id)))
            &&& find_in(after, id) == Some(order.with_id(id))
            &&& forall|other: EntityId| other != id ==> #[trigger] find_in(after, other) == find_in(tables, other)
        }),
{
    let id = create_id(order, fresh.order);
    lemma_created(tables, order, id, fresh.lines);
    lemma_line_rows_store_items(order.items, fresh.lines, id);
    lemma_status_round_trip(order.status);
    let after = effect(tables, OrderRequestView::Create(order), fresh).0;
    assert forall|other: EntityId| other != id implies #[trigger] find_in(after, other) == find_in(
        tables,
        other,
    ) by {
        assert(after.order(other) == tables.order(other));
        assert(after.lines(other) == tables.lines(other));
    }
}

/// An update replaces the whole set of lines: afterwards the order is found
/// with exactly the lines, total, status and time of update of the update,
/// and with the customer and time of creation that it had. No other order
/// changes.
pub proof fn law_update_replaces_lines(
    tables: TablesView,
    id: EntityId,
    order: OrderView,
    fresh: FreshIdsView,
)
    requires
        tables.wf(),
        fresh.lines.len() == order.items.len(),
        effect(tables, OrderRequestView::Update(id, order), fresh).1 is Ok,
    ensures
        ({
            let after = effect(tables, OrderRequestView::Update(id, order), fresh).0;
            &&& find_in(tables, id) is Some
            &&& find_in(after, id) == Some(replaced(find_in(tables, id)->0, order))
            &&& find_in(after, id)->0.items == order.items
            &&& forall|other: EntityId| other != id ==> #[trigger] find_in(after, other) == find_in(tables, other)
        }),
{
    lemma_updated(tables, order, id, fresh.lines);
    lemma_line_rows_store_items(order.items, fresh.lines, id);
    lemma_status_round_trip(order.status);
    let after = effect(tables, OrderRequestView::Update(id, order), fresh).0;
    assert forall|other: EntityId| other != id implies #[trigger] find_in(after, other) == find_in(
        tables,
        other,
    ) by {
        assert(after.order(other) == tables.order(other));
        assert(after.lines(other) == tables.lines(other));
    }
}

/// An update or a delete of an order that is not stored fails with a
/// not-found error and writes nothing.
pub proof fn law_missing_order_is_not_written(
    tables: TablesView,
    id: EntityId,
    order: OrderView,
    fresh: FreshIdsView,
)
    requires
        find_in(tables, id) is None,
    ensures
        effect(tables, OrderRequestView::Update(id, order), fresh) == (
            tables,
            Err::<OrderOutcomeView, ServiceErrorView>(
                ServiceErrorView::not_found(order_not_found(id)),
            ),
        ),
        effect(tables, OrderRequestView::Delete(id), fresh) == (
            tables,
            Err::<OrderOutcomeView, ServiceErrorView>(
                ServiceErrorView::not_found(order_not_found(id)),
            ),
        ),
{
}

/// A delete removes the order row and every line row of the order, and
/// nothing of any other order.
pub proof fn law_delete_removes_order_and_lines(tables: TablesView, id: EntityId, fresh: FreshIdsView)
    requires
        tables.wf(),
        effect(tables, OrderRequestView::Delete(id), fresh).1 is Ok,
    ensures
        ({
            let after = effect(tables, OrderRequestView::Delete(id), fresh).0;
            &&& find_in(tables, id) is Some
            &&& after.order(id) is None
            &&& after.lines(id) == Seq::<ItemRow>::empty()
            &&& find_in(after, id) is None
            &&& forall|other: EntityId| other != id ==> #[trigger] find_in(after, other) == find_in(tables, other)
        }),
{
    lemma_deleted_order(tables, id);
    let statements = delete_statements(id);
    assert(statements.first() == OrderWriteView::DeleteOrder(id));
    assert(statements.drop_first() =~= Seq::<OrderWriteView>::empty());
    let next = tables.write(OrderWriteView::DeleteOrder(id))->Ok_0;
    assert(next.write_all(statements.drop_first()) == Ok::<TablesView, Violation>(next));
    assert(tables.write_all(statements) == Ok::<TablesView, Violation>(next));
    let after = effect(tables, OrderRequestView::Delete(id), fresh).0;
    assert(after == next);
    assert forall|other: EntityId| other != id implies #[trigger] find_in(after, other) == find_in(
        tables,
        other,
    ) by {
        assert(after.order(other) == tables.order(other));
        assert(after.lines(other) == tables.lines(other));
    }
}

/// A call that fails leaves the tables exactly as they were, and a call
/// leaves them as the schema demands.
pub proof fn law_calls_are_atomic(tables: TablesView, request: OrderRequestView, fresh: FreshIdsView)
    requires
        tables.wf(),
    ensures
        effect(tables, request, fresh).1 is Err ==> effect(tables, request, fresh).0 == tables,
        effect(tables, request, fresh).0.wf(),
{
    let statements = match request {
        OrderRequestView::Create(order) => create_statements(
            order,
            create_id(order, fresh.order),
            fresh.lines,
        ),
        OrderRequestView::Update(id, order) => update_statements(order, id, fresh.lines),
        OrderRequestView::Delete(id) => delete_statements(id),
        _ => Seq::empty(),
    };
    if tables.write_all(statements) is Ok {
        lemma_write_all_keeps_wf(tables, statements);
    }
}

/// Whether orders are in order of creation, newest first.
pub open spec fn listed_newest_first(orders: Seq<OrderView>) -> bool {
    forall|i: int, j: int|
        0 <= i < j < orders.len() ==> !later(
            (#[trigger] orders[j]).created_at,
            (#[trigger] orders[i]).created_at,
        )
}

/// The list of every order is in order of creation, newest first, and holds
/// each stored order once.
pub proof fn law_list_is_newest_first(tables: TablesView)
    requires
        tables.wf(),
    ensures
        listed_newest_first(list_in(tables)),
        list_in(tables).len() == tables.orders.len(),
        forall|i: int|
            0 <= i < list_in(tables).len() ==> find_in(
                tables,
                (#[trigger] list_in(tables)[i]).id->0,
            ) == Some(list_in(tables)[i]),
{
    let listed = list_in(tables);
    assert forall|i: int, j: int| 0 <= i < j < listed.len() implies !later(
        (#[trigger] listed[j]).created_at,
        (#[trigger] listed[i]).created_at,
    ) by {
        assert(listed[i].created_at == tables.orders[i].created_at);
        assert(listed[j].created_at == tables.orders[j].created_at);
    }
    assert forall|i: int| 0 <= i < listed.len() implies find_in(
        tables,
        (#[trigger] listed[i]).id->0,
    ) == Some(listed[i]) by {
        lemma_order_is(tables, tables.orders[i].id, i);
    }
}

/// A new order whose identifier is taken is refused with a database error,
/// and the order that is there is not overwritten.
pub proof fn law_create_never_overwrites(tables: TablesView, order: OrderView, fresh: FreshIdsView)
    requires
        find_in(tables, create_id(order, fresh.order)) is Some,
    ensures
        effect(tables, OrderRequestView::Create(order), fresh) == (
            tables,
            Err::<OrderOutcomeView, ServiceErrorView>(
                ServiceErrorView::database(Violation::DuplicateOrder.message()),
            ),
        ),
{
    let id = create_id(order, fresh.order);
    let statements = create_statements(order, id, fresh.lines);
    assert(statements.first() == OrderWriteView::InsertOrder(row_of(order, id)));
}

/// Whatever a session waits for, a failure of the engine ends the call with
/// a database error that carries the engine's message; and where the order
/// row of an update or a delete is missing, the call ends with a not-found
/// error without asking for anything to be written.
pub proof fn law_failures_surface(session: OrderSessionView, message: Seq<char>)
    requires
        session != OrderSessionView::Closed,
    ensures
        advance_spec(session, OrderReplyView::Failed(message)).1 == OrderStepView::Done(
            Err(ServiceErrorView::database(message)),
        ),
        session matches OrderSessionView::AwaitOrder(id, purpose) ==> purpose != PurposeView::Find
            ==> advance_spec(session, OrderReplyView::Order(None)).1 == OrderStepView::Done(
            Err(ServiceErrorView::not_found(order_not_found(id))),
        ),
{
}

} // verus!
