//! The two tables of the relational store as values, with the rules that the
//! schema enforces: identifiers are primary keys, every line row refers to an
//! order row, and deleting an order row deletes its line rows.

use crate::clock::Timestamp;
use crate::ident::EntityId;
use crate::repositories::relational::{
    ItemRow, OrderQueryView, OrderReplyView, OrderRowView, OrderWriteView,
};
use vstd::prelude::*;

verus! {

/// The contents of the two tables. Order rows are kept newest first.
pub struct TablesView {
    pub orders: Seq<OrderRowView>,
    pub items: Seq<ItemRow>,
}

/// Why the engine refuses a statement.
#[derive(Debug, Clone, Copy, PartialEq, Eq, Structural)]
pub enum Violation {
    /// An order row with this identifier exists already.
    DuplicateOrder,
    /// A line row with this identifier exists already.
    DuplicateItem,
    /// The line row refers to an order row that does not exist.
    MissingOrder,
}

/// Whether `a` is strictly later than `b`.
pub open spec fn later(a: Timestamp, b: Timestamp) -> bool {
    a.seconds > b.seconds || (a.seconds == b.seconds && a.nanos > b.nanos)
}

/// Whether some order row has the identifier.
pub open spec fn has_order(orders: Seq<OrderRowView>, id: EntityId) -> bool {
    exists|i: int| 0 <= i < orders.len() && (#[trigger] orders[i]).id == id
}

/// Where the order row with the identifier stands.
pub open spec fn order_position(orders: Seq<OrderRowView>, id: EntityId) -> int {
    choose|i: int| 0 <= i < orders.len() && (#[trigger] orders[i]).id == id
}

/// Whether some line row has the identifier.
pub open spec fn has_item(items: Seq<ItemRow>, id: EntityId) -> bool {
    exists|i: int| 0 <= i < items.len() && (#[trigger] items[i]).id == id
}

/// Whether the rows are in order of creation, newest first.
pub open spec fn newest_first(orders: Seq<OrderRowView>) -> bool {
    forall|i: int, j: int|
        0 <= i < j < orders.len() ==> !later(
            (#[trigger] orders[j]).created_at,
            (#[trigger] orders[i]).created_at,
        )
}

/// Whether no two rows share an identifier.
pub open spec fn distinct_orders(orders: Seq<OrderRowView>) -> bool {
    forall|i: int, j: int|
        0 <= i < j < orders.len() ==> (#[trigger] orders[i]).id != (#[trigger] orders[j]).id
}

/// Whether `p` is where a row created at `at` belongs: behind every row that
/// is strictly newer, in front of the rest.
pub open spec fn is_slot(orders: Seq<OrderRowView>, at: Timestamp, p: int) -> bool {
    &&& 0 <= p <= orders.len()
    &&& forall|k: int| 0 <= k < p ==> later((#[trigger] orders[k]).created_at, at)
    &&& p < orders.len() ==> !later(orders[p].created_at, at)
}

/// Where a row created at `at` belongs.
pub open spec fn slot(orders: Seq<OrderRowView>, at: Timestamp) -> int {
    choose|p: int| is_slot(orders, at, p)
}

/// The line rows of one order, in the order in which they are stored.
pub open spec fn lines_of(items: Seq<ItemRow>, order_id: EntityId) -> Seq<ItemRow>
    decreases items.len(),
{
    if items.len() == 0 {
        Seq::empty()
    } else if items.last().order_id == order_id {
        lines_of(items.drop_last(), order_id).push(items.last())
    } else {
        lines_of(items.drop_last(), order_id)
    }
}

/// The line rows of every order but one, in the order in which they are
/// stored.
pub open spec fn lines_of_others(items: Seq<ItemRow>, order_id: EntityId) -> Seq<ItemRow>
    decreases items.len(),
{
    if items.len() == 0 {
        Seq::empty()
    } else if items.last().order_id != order_id {
        lines_of_others(items.drop_last(), order_id).push(items.last())
    } else {
        lines_of_others(items.drop_last(), order_id)
    }
}

/// The row with its total, status tag and time of update replaced.
pub open spec fn revised(
    row: OrderRowView,
    total: i64,
    status: Seq<char>,
    updated_at: Timestamp,
) -> OrderRowView {
    OrderRowView { total, status, updated_at, ..row }
}

impl Violation {
    /// The message with which the engine refuses.
    pub open spec fn message(self) -> Seq<char> {
        match self {
            Violation::DuplicateOrder => "duplicate key value violates unique constraint \"orders_pkey\""@,
            Violation::DuplicateItem => "duplicate key value violates unique constraint \"order_items_pkey\""@,
            Violation::MissingOrder => "insert on table \"order_items\" violates foreign key constraint \"order_items_order_id_fkey\""@,
        }
    }
}

impl TablesView {
    /// Two tables without rows.
    pub open spec fn empty() -> TablesView {
        TablesView { orders: Seq::empty(), items: Seq::empty() }
    }

    /// What the schema guarantees of the contents.
    pub open spec fn wf(self) -> bool {
        &&& newest_first(self.orders)
        &&& distinct_orders(self.orders)
        &&& forall|k: int|
            0 <= k < self.items.len() ==> has_order(self.orders, (#[trigger] self.items[k]).order_id)
    }

    /// The order row with the identifier, if there is one.
    pub open spec fn order(self, id: EntityId) -> Option<OrderRowView> {
        if has_order(self.orders, id) {
            Some(self.orders[order_position(self.orders, id)])
        } else {
            None
        }
    }

    /// The line rows of the order with the identifier.
    pub open spec fn lines(self, id: EntityId) -> Seq<ItemRow> {
        lines_of(self.items, id)
    }

    /// The tables after one statement, or the reason for which the engine
    /// refuses it.
    pub open spec fn write(self, statement: OrderWriteView) -> Result<TablesView, Violation> {
        match statement {
            OrderWriteView::InsertOrder(row) => {
                if has_order(self.orders, row.id) {
                    Err(Violation::DuplicateOrder)
                } else {
                    Ok(
                        TablesView {
                            orders: self.orders.insert(slot(self.orders, row.created_at), row),
                            ..self
                        },
                    )
                }
            },
            OrderWriteView::InsertItem(row) => {
                if has_item(self.items, row.id) {
                    Err(Violation::DuplicateItem)
                } else if !has_order(self.orders, row.order_id) {
                    Err(Violation::MissingOrder)
                } else {
                    Ok(TablesView { items: self.items.push(row), ..self })
                }
            },
            OrderWriteView::UpdateOrder { id, total, status, updated_at } => {
                if has_order(self.orders, id) {
                    let p = order_position(self.orders, id);
                    Ok(
                        TablesView {
                            orders: self.orders.update(
                                p,
                                revised(self.orders[p], total, status, updated_at),
                            ),
                            ..self
                        },
                    )
                } else {
                    Ok(self)
                }
            },
            OrderWriteView::DeleteItems(id) => Ok(
                TablesView { items: lines_of_others(self.items, id), ..self },
            ),
            OrderWriteView::DeleteOrder(id) => {
                if has_order(self.orders, id) {
                    Ok(
                        TablesView {
                            orders: self.orders.remove(order_position(self.orders, id)),
                            items: lines_of_others(self.items, id),
                        },
                    )
                } else {
                    Ok(self)
                }
            },
        }
    }

    /// The tables after the statements in order, or the reason for which the
    /// engine refuses the first that it refuses.
    pub open spec fn write_all(self, statements: Seq<OrderWriteView>) -> Result<
        TablesView,
        Violation,
    >
        decreases statements.len(),
    {
        if statements.len() == 0 {
            Ok(self)
        } else {
            match self.write(statements.first()) {
                Ok(next) => next.write_all(statements.drop_first()),
                Err(violation) => Err(violation),
            }
        }
    }

    /// The tables after one step, and the engine's answer. A transaction
    /// takes effect as a whole or not at all.
    pub open spec fn answer(self, query: OrderQueryView) -> (TablesView, OrderReplyView) {
        match query {
            OrderQueryView::SelectOrder(id) => (self, OrderReplyView::Order(self.order(id))),
            OrderQueryView::SelectOrders => (self, OrderReplyView::Orders(self.orders)),
            OrderQueryView::SelectItems(id) => (self, OrderReplyView::Items(self.lines(id))),
            OrderQueryView::Transaction(statements) => match self.write_all(statements) {
                Ok(next) => (next, OrderReplyView::Written),
                Err(violation) => (self, OrderReplyView::Failed(violation.message())),
            },
        }
    }
}

/// Only one place is the slot of a time among rows.
pub proof fn lemma_slot_unique(orders: Seq<OrderRowView>, at: Timestamp, p: int, q: int)
    requires
        is_slot(orders, at, p),
        is_slot(orders, at, q),
    ensures
        p == q,
{
    if p < q {
        assert(later(orders[p].created_at, at));
    } else if q < p {
        assert(later(orders[q].created_at, at));
    }
}

/// Among rows with distinct identifiers, the row with an identifier stands
/// where `order_position` says.
pub proof fn lemma_position_unique(orders: Seq<OrderRowView>, id: EntityId, p: int)
    requires
        distinct_orders(orders),
        0 <= p < orders.len(),
        orders[p].id == id,
    ensures
        has_order(orders, id),
        order_position(orders, id) == p,
{
    let q = order_position(orders, id);
    assert(0 <= q < orders.len() && orders[q].id == id);
    if p < q {
        assert(orders[p].id != orders[q].id);
    } else if q < p {
        assert(orders[q].id != orders[p].id);
    }
}

/// The lines of an order among rows with one more row at the end.
pub proof fn lemma_lines_of_push(items: Seq<ItemRow>, row: ItemRow, order_id: EntityId)
    ensures
        lines_of(items.push(row), order_id) == if row.order_id == order_id {
            lines_of(items, order_id).push(row)
        } else {
            lines_of(items, order_id)
        },
        lines_of_others(items.push(row), order_id) == if row.order_id != order_id {
            lines_of_others(items, order_id).push(row)
        } else {
            lines_of_others(items, order_id)
        },
{
    assert(items.push(row).drop_last() =~= items);
}

/// Every line that `lines_of_others` keeps is a stored line of another order,
/// and every stored line of another order is kept.
pub proof fn lemma_lines_of_others(items: Seq<ItemRow>, order_id: EntityId)
    ensures
        forall|k: int|
            0 <= k < lines_of_others(items, order_id).len() ==> {
                &&& (#[trigger] lines_of_others(items, order_id)[k]).order_id != order_id
                &&& items.contains(lines_of_others(items, order_id)[k])
            },
        forall|k: int|
            0 <= k < items.len() && (#[trigger] items[k]).order_id != order_id
                ==> lines_of_others(items, order_id).contains(items[k]),
        lines_of(lines_of_others(items, order_id), order_id) == Seq::<ItemRow>::empty(),
        forall|other: EntityId|
            other != order_id ==> #[trigger] lines_of(lines_of_others(items, order_id), other)
                == lines_of(items, other),
    decreases items.len(),
{
    if items.len() > 0 {
        let front = items.drop_last();
        let last = items.last();
        lemma_lines_of_others(front, order_id);
        let kept = lines_of_others(items, order_id);
        let kept_front = lines_of_others(front, order_id);
        assert forall|k: int| 0 <= k < kept.len() implies {
            &&& (#[trigger] kept[k]).order_id != order_id
            &&& items.contains(kept[k])
        } by {
            if k < kept_front.len() {
                assert(kept[k] == kept_front[k]);
                assert(front.contains(kept_front[k]));
                let w = choose|w: int| 0 <= w < front.len() && front[w] == kept_front[k];
                assert(items[w] == kept[k]);
            } else {
                assert(kept[k] == last);
                assert(items[items.len() - 1] == last);
            }
        }
        assert forall|k: int|
            0 <= k < items.len() && (#[trigger] items[k]).order_id != order_id implies kept.contains(
            items[k],
        ) by {
            if k < front.len() {
                assert(front[k] == items[k]);
                assert(kept_front.contains(front[k]));
                let w = choose|w: int| 0 <= w < kept_front.len() && kept_front[w] == front[k];
                assert(kept[w] == items[k]);
            } else {
                assert(kept[kept.len() - 1] == items[k]);
            }
        }
        if last.order_id != order_id {
            lemma_lines_of_push(kept_front, last, order_id);
        }
        assert forall|other: EntityId| other != order_id implies #[trigger] lines_of(
            kept,
            other,
        ) == lines_of(items, other) by {
            if last.order_id != order_id {
                lemma_lines_of_push(kept_front, last, other);
            }
        }
    }
}

/// Among rows none of which belongs to an order, the order has no lines.
pub proof fn lemma_lines_of_none(items: Seq<ItemRow>, order_id: EntityId)
    requires
        forall|k: int| 0 <= k < items.len() ==> (#[trigger] items[k]).order_id != order_id,
    ensures
        lines_of(items, order_id) == Seq::<ItemRow>::empty(),
    decreases items.len(),
{
    if items.len() > 0 {
        assert(items.last() == items[items.len() - 1]);
        let front = items.drop_last();
        assert forall|k: int| 0 <= k < front.len() implies (#[trigger] front[k]).order_id
            != order_id by {
            assert(front[k] == items[k]);
        }
        lemma_lines_of_none(front, order_id);
    }
}

/// An order that has no row has no lines, where every line refers to an order
/// row.
pub proof fn lemma_absent_order_has_no_lines(tables: TablesView, id: EntityId)
    requires
        tables.wf(),
        !has_order(tables.orders, id),
    ensures
        tables.lines(id) == Seq::<ItemRow>::empty(),
{
    assert forall|k: int| 0 <= k < tables.items.len() implies (#[trigger] tables.items[k]).order_id
        != id by {
        assert(has_order(tables.orders, tables.items[k].order_id));
    }
    lemma_lines_of_none(tables.items, id);
}

/// Every time has a slot among rows.
pub proof fn lemma_slot_exists(orders: Seq<OrderRowView>, at: Timestamp, from: int) -> (p: int)
    requires
        0 <= from <= orders.len(),
        forall|k: int| 0 <= k < from ==> later((#[trigger] orders[k]).created_at, at),
    ensures
        is_slot(orders, at, p),
        slot(orders, at) == p,
    decreases orders.len() - from,
{
    if from < orders.len() && later(orders[from].created_at, at) {
        lemma_slot_exists(orders, at, from + 1)
    } else {
        assert(is_slot(orders, at, from));
        lemma_slot_unique(orders, at, from, slot(orders, at));
        from
    }
}

/// A row put into its slot keeps the rows newest first, and every row that
/// was there is still there.
pub proof fn lemma_insert_order(orders: Seq<OrderRowView>, row: OrderRowView)
    requires
        newest_first(orders),
        distinct_orders(orders),
        !has_order(orders, row.id),
    ensures
        newest_first(orders.insert(slot(orders, row.created_at), row)),
        distinct_orders(orders.insert(slot(orders, row.created_at), row)),
        forall|id: EntityId|
            has_order(orders, id) ==> #[trigger] has_order(
                orders.insert(slot(orders, row.created_at), row),
                id,
            ),
        has_order(orders.insert(slot(orders, row.created_at), row), row.id),
{
    let p = lemma_slot_exists(orders, row.created_at, 0);
    let after = orders.insert(p, row);
    assert forall|k: int| p <= k < orders.len() implies !later(
        (#[trigger] orders[k]).created_at,
        row.created_at,
    ) by {
        if p < k {
            assert(!later(orders[k].created_at, orders[p].created_at));
        }
    }
    assert forall|i: int, j: int| 0 <= i < j < after.len() implies !later(
        (#[trigger] after[j]).created_at,
        (#[trigger] after[i]).created_at,
    ) by {
        if j < p {
            assert(after[i] == orders[i] && after[j] == orders[j]);
        } else if j == p {
            assert(after[i] == orders[i]);
            assert(later(orders[i].created_at, row.created_at));
        } else if i < p {
            assert(after[i] == orders[i] && after[j] == orders[j - 1]);
        } else if i == p {
            assert(after[j] == orders[j - 1]);
        } else {
            assert(after[i] == orders[i - 1] && after[j] == orders[j - 1]);
        }
    }
    assert forall|i: int, j: int| 0 <= i < j < after.len() implies (#[trigger] after[i]).id != (
    #[trigger] after[j]).id by {
        let a = if i < p { i } else { i - 1 };
        let b = if j < p { j } else { j - 1 };
        if i == p {
            assert(after[j] == orders[b]);
        } else if j == p {
            assert(after[i] == orders[a]);
        } else {
            assert(after[i] == orders[a] && after[j] == orders[b]);
        }
    }
    assert forall|id: EntityId| has_order(orders, id) implies #[trigger] has_order(after, id) by {
        let q = order_position(orders, id);
        if q < p {
            assert(after[q].id == id);
        } else {
            assert(after[q + 1].id == id);
        }
    }
    assert(after[p].id == row.id);
}

/// What the schema guarantees still holds after a statement that the engine
/// accepts.
pub proof fn lemma_write_keeps_wf(tables: TablesView, statement: OrderWriteView)
    requires
        tables.wf(),
        tables.write(statement) is Ok,
    ensures
        tables.write(statement)->Ok_0.wf(),
{
    let after = tables.write(statement)->Ok_0;
    match statement {
        OrderWriteView::InsertOrder(row) => {
            lemma_insert_order(tables.orders, row);
            assert forall|k: int| 0 <= k < after.items.len() implies has_order(
                after.orders,
                (#[trigger] after.items[k]).order_id,
            ) by {
                assert(has_order(tables.orders, tables.items[k].order_id));
            }
        },
        OrderWriteView::InsertItem(row) => {
            assert forall|k: int| 0 <= k < after.items.len() implies has_order(
                after.orders,
                (#[trigger] after.items[k]).order_id,
            ) by {
                if k < tables.items.len() {
                    assert(has_order(tables.orders, tables.items[k].order_id));
                }
            }
        },
        OrderWriteView::UpdateOrder { id, total, status, updated_at } => {
            if has_order(tables.orders, id) {
                let p = order_position(tables.orders, id);
                assert forall|i: int| 0 <= i < after.orders.len() implies {
                    &&& (#[trigger] after.orders[i]).id == tables.orders[i].id
                    &&& after.orders[i].created_at == tables.orders[i].created_at
                } by {}
                assert forall|k: int| 0 <= k < after.items.len() implies has_order(
                    after.orders,
                    (#[trigger] after.items[k]).order_id,
                ) by {
                    let q = order_position(tables.orders, tables.items[k].order_id);
                    assert(has_order(tables.orders, tables.items[k].order_id));
                    assert(after.orders[q].id == tables.items[k].order_id);
                }
            }
        },
        OrderWriteView::DeleteItems(id) => {
            lemma_lines_of_others(tables.items, id);
            assert forall|k: int| 0 <= k < after.items.len() implies has_order(
                after.orders,
                (#[trigger] after.items[k]).order_id,
            ) by {
                assert(tables.items.contains(after.items[k]));
                let w = choose|w: int| 0 <= w < tables.items.len() && tables.items[w] == after.items[k];
                assert(has_order(tables.orders, tables.items[w].order_id));
            }
        },
        OrderWriteView::DeleteOrder(id) => {
            if has_order(tables.orders, id) {
                let p = order_position(tables.orders, id);
                lemma_lines_of_others(tables.items, id);
                assert forall|i: int| 0 <= i < after.orders.len() implies (
                #[trigger] after.orders[i]) == tables.orders[if i < p { i } else { i + 1 }] by {}
                assert forall|k: int| 0 <= k < after.items.len() implies has_order(
                    after.orders,
                    (#[trigger] after.items[k]).order_id,
                ) by {
                    assert(tables.items.contains(after.items[k]));
                    let w = choose|w: int|
                        0 <= w < tables.items.len() && tables.items[w] == after.items[k];
                    assert(has_order(tables.orders, tables.items[w].order_id));
                    let q = order_position(tables.orders, tables.items[w].order_id);
                    assert(q != p);
                    if q < p {
                        assert(after.orders[q].id == after.items[k].order_id);
                    } else {
                        assert(after.orders[q - 1].id == after.items[k].order_id);
                    }
                }
            }
        },
    }
}

/// What the schema guarantees still holds after a transaction.
pub proof fn lemma_write_all_keeps_wf(tables: TablesView, statements: Seq<OrderWriteView>)
    requires
        tables.wf(),
        tables.write_all(statements) is Ok,
    ensures
        tables.write_all(statements)->Ok_0.wf(),
    decreases statements.len(),
{
    if statements.len() > 0 {
        lemma_write_keeps_wf(tables, statements.first());
        lemma_write_all_keeps_wf(tables.write(statements.first())->Ok_0, statements.drop_first());
    }
}

/// The row of an order among rows with distinct identifiers is the row that
/// carries its identifier.
pub proof fn lemma_order_is(tables: TablesView, id: EntityId, p: int)
    requires
        distinct_orders(tables.orders),
        0 <= p < tables.orders.len(),
        tables.orders[p].id == id,
    ensures
        tables.order(id) == Some(tables.orders[p]),
{
    lemma_position_unique(tables.orders, id, p);
}

/// After an order row is inserted, its order has that row, and every other
/// order has the row it had.
pub proof fn lemma_inserted_order(tables: TablesView, row: OrderRowView)
    requires
        tables.wf(),
        !has_order(tables.orders, row.id),
    ensures
        tables.write(OrderWriteView::InsertOrder(row)) is Ok,
        tables.write(OrderWriteView::InsertOrder(row))->Ok_0.items == tables.items,
        tables.write(OrderWriteView::InsertOrder(row))->Ok_0.order(row.id) == Some(row),
        forall|other: EntityId|
            other != row.id ==> #[trigger] tables.write(
                OrderWriteView::InsertOrder(row),
            )->Ok_0.order(other) == tables.order(other),
{
    let after = tables.write(OrderWriteView::InsertOrder(row))->Ok_0;
    let p = lemma_slot_exists(tables.orders, row.created_at, 0);
    lemma_insert_order(tables.orders, row);
    assert(after.orders[p] == row);
    lemma_order_is(after, row.id, p);
    assert forall|other: EntityId| other != row.id implies #[trigger] after.order(other)
        == tables.order(other) by {
        if has_order(tables.orders, other) {
            let q = order_position(tables.orders, other);
            let shifted = if q < p { q } else { q + 1 };
            assert(after.orders[shifted] == tables.orders[q]);
            lemma_order_is(after, other, shifted);
        } else if has_order(after.orders, other) {
            let q = order_position(after.orders, other);
            let back = if q < p { q } else { q - 1 };
            assert(after.orders[q] == tables.orders[back]);
            assert(tables.orders[back].id == other);
        }
    }
}

/// After an order row is revised, its order has the revised row, and every
/// other order has the row it had.
pub proof fn lemma_revised_order(
    tables: TablesView,
    id: EntityId,
    total: i64,
    status: Seq<char>,
    updated_at: Timestamp,
)
    requires
        tables.wf(),
        has_order(tables.orders, id),
    ensures
        ({
            let statement = OrderWriteView::UpdateOrder { id, total, status, updated_at };
            let after = tables.write(statement)->Ok_0;
            &&& tables.write(statement) is Ok
            &&& after.items == tables.items
            &&& after.order(id) == Some(revised(tables.order(id)->0, total, status, updated_at))
            &&& forall|other: EntityId| other != id ==> #[trigger] after.order(other) == tables.order(other)
            &&& forall|other: EntityId| #[trigger] has_order(after.orders, other) == has_order(tables.orders, other)
        }),
{
    let statement = OrderWriteView::UpdateOrder { id, total, status, updated_at };
    let after = tables.write(statement)->Ok_0;
    let p = order_position(tables.orders, id);
    lemma_write_keeps_wf(tables, statement);
    assert(after.orders[p].id == id);
    lemma_order_is(after, id, p);
    assert forall|other: EntityId| #[trigger] has_order(after.orders, other) == has_order(
        tables.orders,
        other,
    ) by {
        if has_order(tables.orders, other) {
            let q = order_position(tables.orders, other);
            assert(after.orders[q].id == other);
        }
        if has_order(after.orders, other) {
            let q = order_position(after.orders, other);
            assert(tables.orders[q].id == other);
        }
    }
    assert forall|other: EntityId| other != id implies #[trigger] after.order(other)
        == tables.order(other) by {
        if has_order(tables.orders, other) {
            let q = order_position(tables.orders, other);
            assert(after.orders[q] == tables.orders[q]);
            lemma_order_is(after, other, q);
        }
    }
}

/// After an order is deleted it has no row and no lines, and every other
/// order has the row and the lines it had.
pub proof fn lemma_deleted_order(tables: TablesView, id: EntityId)
    requires
        tables.wf(),
    ensures
        ({
            let after = tables.write(OrderWriteView::DeleteOrder(id))->Ok_0;
            &&& tables.write(OrderWriteView::DeleteOrder(id)) is Ok
            &&& !has_order(after.orders, id)
            &&& after.order(id) is None
            &&& after.lines(id) == Seq::<ItemRow>::empty()
            &&& forall|other: EntityId| other != id ==> #[trigger] after.order(other) == tables.order(other)
            &&& forall|other: EntityId| other != id ==> #[trigger] after.lines(other) == tables.lines(other)
            &&& forall|other: EntityId| other != id ==> #[trigger] has_order(after.orders, other) == has_order(tables.orders, other)
        }),
{
    let after = tables.write(OrderWriteView::DeleteOrder(id))->Ok_0;
    lemma_write_keeps_wf(tables, OrderWriteView::DeleteOrder(id));
    if has_order(tables.orders, id) {
        let p = order_position(tables.orders, id);
        lemma_lines_of_others(tables.items, id);
        assert forall|i: int| 0 <= i < after.orders.len() implies (#[trigger] after.orders[i])
            == tables.orders[if i < p { i } else { i + 1 }] by {}
        assert(!has_order(after.orders, id)) by {
            if has_order(after.orders, id) {
                let q = order_position(after.orders, id);
                let back = if q < p { q } else { q + 1 };
                assert(after.orders[q] == tables.orders[back]);
                assert(tables.orders[back].id != tables.orders[p].id);
            }
        }
        assert forall|other: EntityId| other != id implies #[trigger] has_order(
            after.orders,
            other,
        ) == has_order(tables.orders, other) by {
            if has_order(tables.orders, other) {
                let q = order_position(tables.orders, other);
                let shifted = if q < p { q } else { q - 1 };
                assert(after.orders[shifted] == tables.orders[q]);
            } else if has_order(after.orders, other) {
                let q = order_position(after.orders, other);
                let back = if q < p { q } else { q + 1 };
                assert(after.orders[q] == tables.orders[back]);
                assert(tables.orders[back].id == other);
            }
        }
        assert forall|other: EntityId| other != id implies #[trigger] after.order(other)
            == tables.order(other) by {
            assert(has_order(after.orders, other) == has_order(tables.orders, other));
            if has_order(tables.orders, other) {
                let q = order_position(tables.orders, other);
                let shifted = if q < p { q } else { q - 1 };
                assert(after.orders[shifted] == tables.orders[q]);
                lemma_order_is(after, other, shifted);
            }
        }
        assert forall|other: EntityId| other != id implies #[trigger] after.lines(other)
            == tables.lines(other) by {
            assert(lines_of(lines_of_others(tables.items, id), other) == lines_of(
                tables.items,
                other,
            ));
        }
    } else {
        lemma_absent_order_has_no_lines(tables, id);
    }
}

/// The lines of an order among two lists of rows, one after the other.
pub proof fn lemma_lines_of_add(front: Seq<ItemRow>, back: Seq<ItemRow>, order_id: EntityId)
    ensures
        lines_of(front + back, order_id) == lines_of(front, order_id) + lines_of(back, order_id),
    decreases back.len(),
{
    if back.len() == 0 {
        assert(front + back =~= front);
        assert(lines_of(front, order_id) + lines_of(back, order_id) =~= lines_of(front, order_id));
    } else {
        let shorter = back.drop_last();
        lemma_lines_of_add(front, shorter, order_id);
        assert(front + back =~= (front + shorter).push(back.last()));
        lemma_lines_of_push(front + shorter, back.last(), order_id);
        if back.last().order_id == order_id {
            assert(lines_of(front, order_id) + lines_of(back, order_id) =~= (lines_of(
                front,
                order_id,
            ) + lines_of(shorter, order_id)).push(back.last()));
        }
    }
}

/// Among rows all of which belong to an order, every row is a line of the
/// order.
pub proof fn lemma_lines_of_all(items: Seq<ItemRow>, order_id: EntityId)
    requires
        forall|k: int| 0 <= k < items.len() ==> (#[trigger] items[k]).order_id == order_id,
    ensures
        lines_of(items, order_id) == items,
    decreases items.len(),
{
    if items.len() > 0 {
        assert(items.last() == items[items.len() - 1]);
        let front = items.drop_last();
        assert forall|k: int| 0 <= k < front.len() implies (#[trigger] front[k]).order_id
            == order_id by {
            assert(front[k] == items[k]);
        }
        lemma_lines_of_all(front, order_id);
        assert(front.push(items.last()) =~= items);
    } else {
        assert(items =~= Seq::empty());
    }
}

} // verus!
