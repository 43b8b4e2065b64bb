//! The relational layout of orders: one row per order, one row per line, and
//! the statements that read and write them.

use crate::clock::Timestamp;
use crate::ident::EntityId;
use vstd::prelude::*;

verus! {

/// A row of the table of orders. The status is stored as its tag.
#[derive(Debug, PartialEq, Eq)]
pub struct OrderRow {
    pub id: EntityId,
    pub customer_id: EntityId,
    pub total: i64,
    pub status: String,
    pub created_at: Timestamp,
    pub updated_at: Timestamp,
}

/// The mathematical value of an [`OrderRow`].
pub struct OrderRowView {
    pub id: EntityId,
    pub customer_id: EntityId,
    pub total: i64,
    pub status: Seq<char>,
    pub created_at: Timestamp,
    pub updated_at: Timestamp,
}

/// A row of the table of order lines. It refers to the order that owns it.
#[derive(Debug, Clone, Copy, PartialEq, Eq, Structural)]
pub struct ItemRow {
    pub id: EntityId,
    pub order_id: EntityId,
    pub product_id: EntityId,
    pub quantity: i32,
    pub price: i64,
}

/// A statement that changes the tables.
#[derive(Debug, PartialEq, Eq)]
pub enum OrderWrite {
    /// Adds an order row.
    InsertOrder(OrderRow),
    /// Adds a line row.
    InsertItem(ItemRow),
    /// Sets the total, the status tag and the time of update of the order
    /// with the given identifier.
    UpdateOrder { id: EntityId, total: i64, status: String, updated_at: Timestamp },
    /// Removes every line row of the given order.
    DeleteItems(EntityId),
    /// Removes the order row with the given identifier; its line rows go with
    /// it.
    DeleteOrder(EntityId),
}

/// The mathematical value of an [`OrderWrite`].
pub enum OrderWriteView {
    InsertOrder(OrderRowView),
    InsertItem(ItemRow),
    UpdateOrder { id: EntityId, total: i64, status: Seq<char>, updated_at: Timestamp },
    DeleteItems(EntityId),
    DeleteOrder(EntityId),
}

/// What a store asks of the engine in one step.
#[derive(Debug, PartialEq, Eq)]
pub enum OrderQuery {
    /// The order row with the given identifier, if there is one.
    SelectOrder(EntityId),
    /// Every order row, newest first.
    SelectOrders,
    /// The line rows of the given order.
    SelectItems(EntityId),
    /// The statements in order, as one transaction: all take effect or none.
    Transaction(Vec<OrderWrite>),
}

/// The mathematical value of an [`OrderQuery`].
pub enum OrderQueryView {
    SelectOrder(EntityId),
    SelectOrders,
    SelectItems(EntityId),
    Transaction(Seq<OrderWriteView>),
}

/// What the engine answers.
#[derive(Debug, PartialEq, Eq)]
pub enum OrderReply {
    /// The answer to `SelectOrder`.
    Order(Option<OrderRow>),
    /// The answer to `SelectOrders`.
    Orders(Vec<OrderRow>),
    /// The answer to `SelectItems`.
    Items(Vec<ItemRow>),
    /// The transaction was committed.
    Written,
    /// The step failed; nothing was changed. The text is the engine's message.
    Failed(String),
}

/// The mathematical value of an [`OrderReply`].
pub enum OrderReplyView {
    Order(Option<OrderRowView>),
    Orders(Seq<OrderRowView>),
    Items(Seq<ItemRow>),
    Written,
    Failed(Seq<char>),
}

impl View for OrderRow {
    type V = OrderRowView;

    open spec fn view(&self) -> OrderRowView {
        OrderRowView {
            id: self.id,
            customer_id: self.customer_id,
            total: self.total,
            status: self.status@,
            created_at: self.created_at,
            updated_at: self.updated_at,
        }
    }
}

/// The values of a list of order rows.
pub open spec fn row_views(rows: Seq<OrderRow>) -> Seq<OrderRowView> {
    rows.map_values(|row: OrderRow| row@)
}

impl View for OrderWrite {
    type V = OrderWriteView;

    open spec fn view(&self) -> OrderWriteView {
        match self {
            OrderWrite::InsertOrder(row) => OrderWriteView::InsertOrder(row@),
            OrderWrite::InsertItem(row) => OrderWriteView::InsertItem(*row),
            OrderWrite::UpdateOrder { id, total, status, updated_at } => OrderWriteView::UpdateOrder {
                id: *id,
                total: *total,
                status: status@,
                updated_at: *updated_at,
            },
            OrderWrite::DeleteItems(id) => OrderWriteView::DeleteItems(*id),
            OrderWrite::DeleteOrder(id) => OrderWriteView::DeleteOrder(*id),
        }
    }
}

/// The values of a list of statements.
pub open spec fn write_views(writes: Seq<OrderWrite>) -> Seq<OrderWriteView> {
    writes.map_values(|write: OrderWrite| write@)
}

impl View for OrderQuery {
    type V = OrderQueryView;

    open spec fn view(&self) -> OrderQueryView {
        match self {
            OrderQuery::SelectOrder(id) => OrderQueryView::SelectOrder(*id),
            OrderQuery::SelectOrders => OrderQueryView::SelectOrders,
            OrderQuery::SelectItems(id) => OrderQueryView::SelectItems(*id),
            OrderQuery::Transaction(writes) => OrderQueryView::Transaction(write_views(writes@)),
        }
    }
}

impl View for OrderReply {
    type V = OrderReplyView;

    open spec fn view(&self) -> OrderReplyView {
        match self {
            OrderReply::Order(row) => OrderReplyView::Order(
                match row {
                    Some(row) => Some(row@),
                    None => None,
                },
            ),
            OrderReply::Orders(rows) => OrderReplyView::Orders(row_views(rows@)),
            OrderReply::Items(rows) => OrderReplyView::Items(rows@),
            OrderReply::Written => OrderReplyView::Written,
            OrderReply::Failed(message) => OrderReplyView::Failed(message@),
        }
    }
}

impl OrderRow {
    /// A copy of the row.
    pub fn duplicate(&self) -> (copy: OrderRow)
        ensures
            copy@ == self@,
    {
        OrderRow {
            id: self.id,
            customer_id: self.customer_id,
            total: self.total,
            status: self.status.clone(),
            created_at: self.created_at,
            updated_at: self.updated_at,
        }
    }
}

} // verus!
