//! A call on the relational order store, one step at a time.
//!
//! A call on the store is a session. The session names the next step to ask
//! of the engine, takes the engine's answer, and names the step after that,
//! until it is done. Every write is a single transaction, so a failure leaves
//! the tables as they were.

use crate::errors::{ServiceError, ServiceErrorView, ServiceResult};
use crate::ident::{is_random_id, EntityId};
use crate::models::order::{Order, OrderItem, OrderView};
use crate::repositories::order_repository::{status_of_tag, status_tag, OrderRepository};
use crate::repositories::relational::{
    row_views, write_views, ItemRow, OrderQuery, OrderQueryView, OrderReply, OrderReplyView,
    OrderRow, OrderRowView, OrderWrite, OrderWriteView,
};
use vstd::prelude::*;
use vstd::string::*;

verus! {

/// A call on the order store.
#[derive(Debug, PartialEq, Eq)]
pub enum OrderRequest {
    /// The order with the identifier, if there is one.
    FindById(EntityId),
    /// Every order, newest first.
    FindAll,
    /// Stores a new order. An order without an identifier is given one.
    Create(Order),
    /// Replaces the order with the identifier, lines and all.
    Update(EntityId, Order),
    /// Removes the order with the identifier and its lines.
    Delete(EntityId),
}

/// The mathematical value of an [`OrderRequest`].
pub enum OrderRequestView {
    FindById(EntityId),
    FindAll,
    Create(OrderView),
    Update(EntityId, OrderView),
    Delete(EntityId),
}

/// What a call on the order store returns when it succeeds.
#[derive(Debug, PartialEq, Eq)]
pub enum OrderOutcome {
    /// The answer to `FindById`.
    Found(Option<Order>),
    /// The answer to `FindAll`.
    Listed(Vec<Order>),
    /// The answer to `Create` and `Update`: the order as it was stored.
    Stored(Order),
    /// The answer to `Delete`.
    Deleted,
}

/// The mathematical value of an [`OrderOutcome`].
pub enum OrderOutcomeView {
    Found(Option<OrderView>),
    Listed(Seq<OrderView>),
    Stored(OrderView),
    Deleted,
}

/// What a session wants next: a step of the engine, or nothing more.
#[derive(Debug, PartialEq, Eq)]
pub enum OrderStep {
    /// Ask the engine this and come back with its answer.
    Ask(OrderQuery),
    /// The call is over, with this result.
    Done(ServiceResult<OrderOutcome>),
}

/// The mathematical value of an [`OrderStep`].
pub enum OrderStepView {
    Ask(OrderQueryView),
    Done(Result<OrderOutcomeView, ServiceErrorView>),
}

/// Identifiers minted ahead of a call: one for the order, should it need one,
/// and one for each of its lines.
#[derive(Debug, PartialEq, Eq)]
pub struct FreshIds {
    pub order: EntityId,
    pub lines: Vec<EntityId>,
}

/// The mathematical value of [`FreshIds`].
pub struct FreshIdsView {
    pub order: EntityId,
    pub lines: Seq<EntityId>,
}

/// Why a session looks an order up.
#[derive(Debug, PartialEq, Eq)]
pub enum Purpose {
    /// To return it.
    Find,
    /// To replace it with the given order, whose lines get the given
    /// identifiers.
    Update(Order, Vec<EntityId>),
    /// To remove it.
    Delete,
}

/// The mathematical value of a [`Purpose`].
pub enum PurposeView {
    Find,
    Update(OrderView, Seq<EntityId>),
    Delete,
}

/// Where a call on the order store stands between two steps.
#[derive(Debug, PartialEq, Eq)]
pub enum OrderSession {
    /// The order row with this identifier was asked for.
    AwaitOrder(EntityId, Purpose),
    /// The order row was found, and its line rows were asked for.
    AwaitItems(OrderRow, Purpose),
    /// Every order row was asked for.
    AwaitOrders,
    /// The order rows are known, the orders of the first few are complete,
    /// and the line rows of the next were asked for.
    AwaitItemsOf(Vec<OrderRow>, Vec<Order>),
    /// A transaction was sent; when it is committed the call returns this.
    AwaitCommit(OrderOutcome),
    /// The call is over.
    Closed,
}

/// The mathematical value of an [`OrderSession`].
pub enum OrderSessionView {
    AwaitOrder(EntityId, PurposeView),
    AwaitItems(OrderRowView, PurposeView),
    AwaitOrders,
    AwaitItemsOf(Seq<OrderRowView>, Seq<OrderView>),
    AwaitCommit(OrderOutcomeView),
    Closed,
}

/// The values of a list of orders.
pub open spec fn order_views(orders: Seq<Order>) -> Seq<OrderView> {
    orders.map_values(|order: Order| order@)
}

/// The value of an order that may be absent.
pub open spec fn found_view(order: Option<Order>) -> Option<OrderView> {
    match order {
        Some(order) => Some(order@),
        None => None,
    }
}

/// The value of the result of a call.
pub open spec fn outcome_view(result: ServiceResult<OrderOutcome>) -> Result<
    OrderOutcomeView,
    ServiceErrorView,
> {
    match result {
        Ok(outcome) => Ok(outcome@),
        Err(error) => Err(error@),
    }
}

impl View for OrderRequest {
    type V = OrderRequestView;

    open spec fn view(&self) -> OrderRequestView {
        match self {
            OrderRequest::FindById(id) => OrderRequestView::FindById(*id),
            OrderRequest::FindAll => OrderRequestView::FindAll,
            OrderRequest::Create(order) => OrderRequestView::Create(order@),
            OrderRequest::Update(id, order) => OrderRequestView::Update(*id, order@),
            OrderRequest::Delete(id) => OrderRequestView::Delete(*id),
        }
    }
}

impl View for OrderOutcome {
    type V = OrderOutcomeView;

    open spec fn view(&self) -> OrderOutcomeView {
        match self {
            OrderOutcome::Found(order) => OrderOutcomeView::Found(found_view(*order)),
            OrderOutcome::Listed(orders) => OrderOutcomeView::Listed(order_views(orders@)),
            OrderOutcome::Stored(order) => OrderOutcomeView::Stored(order@),
            OrderOutcome::Deleted => OrderOutcomeView::Deleted,
        }
    }
}

impl View for OrderStep {
    type V = OrderStepView;

    open spec fn view(&self) -> OrderStepView {
        match self {
            OrderStep::Ask(query) => OrderStepView::Ask(query@),
            OrderStep::Done(result) => OrderStepView::Done(outcome_view(*result)),
        }
    }
}

impl View for FreshIds {
    type V = FreshIdsView;

    open spec fn view(&self) -> FreshIdsView {
        FreshIdsView { order: self.order, lines: self.lines@ }
    }
}

impl View for Purpose {
    type V = PurposeView;

    open spec fn view(&self) -> PurposeView {
        match self {
            Purpose::Find => PurposeView::Find,
            Purpose::Update(order, line_ids) => PurposeView::Update(order@, line_ids@),
            Purpose::Delete => PurposeView::Delete,
        }
    }
}

impl View for OrderSession {
    type V = OrderSessionView;

    open spec fn view(&self) -> OrderSessionView {
        match self {
            OrderSession::AwaitOrder(id, purpose) => OrderSessionView::AwaitOrder(*id, purpose@),
            OrderSession::AwaitItems(row, purpose) => OrderSessionView::AwaitItems(row@, purpose@),
            OrderSession::AwaitOrders => OrderSessionView::AwaitOrders,
            OrderSession::AwaitItemsOf(rows, done) => OrderSessionView::AwaitItemsOf(
                row_views(rows@),
                order_views(done@),
            ),
            OrderSession::AwaitCommit(outcome) => OrderSessionView::AwaitCommit(outcome@),
            OrderSession::Closed => OrderSessionView::Closed,
        }
    }
}

/// The order row that stores an order under an identifier.
pub open spec fn row_of(order: OrderView, id: EntityId) -> OrderRowView {
    OrderRowView {
        id,
        customer_id: order.customer_id,
        total: order.total,
        status: status_tag(order.status),
        created_at: order.created_at,
        updated_at: order.updated_at,
    }
}

/// The line row that stores a line of an order under an identifier.
pub open spec fn line_row(item: OrderItem, id: EntityId, order_id: EntityId) -> ItemRow {
    ItemRow { id, order_id, product_id: item.product_id, quantity: item.quantity, price: item.price }
}

/// The line that a line row stores.
pub open spec fn line_item(row: ItemRow) -> OrderItem {
    OrderItem { product_id: row.product_id, quantity: row.quantity, price: row.price }
}

/// The lines that line rows store, in their order.
pub open spec fn line_items(rows: Seq<ItemRow>) -> Seq<OrderItem> {
    rows.map_values(|row: ItemRow| line_item(row))
}

/// The statements that insert the lines of an order, each under its
/// identifier, in their order.
pub open spec fn line_inserts(
    items: Seq<OrderItem>,
    ids: Seq<EntityId>,
    order_id: EntityId,
) -> Seq<OrderWriteView> {
    Seq::new(
        items.len(),
        |i: int| OrderWriteView::InsertItem(line_row(items[i], ids[i], order_id)),
    )
}

/// The order that an order row and its line rows store.
pub open spec fn stored_order(row: OrderRowView, lines: Seq<ItemRow>) -> OrderView {
    OrderView {
        id: Some(row.id),
        customer_id: row.customer_id,
        items: line_items(lines),
        total: row.total,
        status: status_of_tag(row.status),
        created_at: row.created_at,
        updated_at: row.updated_at,
    }
}

/// The identifier under which a new order is stored: its own, or the fresh
/// one where it has none.
pub open spec fn create_id(order: OrderView, fresh: EntityId) -> EntityId {
    match order.id {
        Some(id) => id,
        None => fresh,
    }
}

/// The transaction that stores a new order: the order row first, then one
/// line row for each line.
pub open spec fn create_statements(order: OrderView, id: EntityId, line_ids: Seq<EntityId>) -> Seq<
    OrderWriteView,
> {
    seq![OrderWriteView::InsertOrder(row_of(order, id))] + line_inserts(order.items, line_ids, id)
}

/// The transaction that replaces an order: the order row's total, status and
/// time of update are set, the old line rows go, and one line row is
/// inserted for each line. The customer is not touched.
pub open spec fn update_statements(order: OrderView, id: EntityId, line_ids: Seq<EntityId>) -> Seq<
    OrderWriteView,
> {
    seq![
        OrderWriteView::UpdateOrder {
            id,
            total: order.total,
            status: status_tag(order.status),
            updated_at: order.updated_at,
        },
        OrderWriteView::DeleteItems(id),
    ] + line_inserts(order.items, line_ids, id)
}

/// The transaction that removes an order. Its line rows go with the order
/// row.
pub open spec fn delete_statements(id: EntityId) -> Seq<OrderWriteView> {
    seq![OrderWriteView::DeleteOrder(id)]
}

/// The message of the error for an order that is not there.
pub open spec fn order_not_found(id: EntityId) -> Seq<char> {
    "Order with ID "@ + id.text() + " not found"@
}

/// The message of the error for an answer that does not fit the step that
/// was asked.
pub open spec fn unexpected_reply() -> Seq<char> {
    "unexpected reply from the storage engine"@
}

/// How many fresh line identifiers a call needs: one for each line of the
/// order that it stores.
pub open spec fn lines_needed(request: OrderRequestView) -> nat {
    match request {
        OrderRequestView::Create(order) => order.items.len(),
        OrderRequestView::Update(_, order) => order.items.len(),
        _ => 0,
    }
}

/// The session that a call opens, and its first step.
pub open spec fn begin_spec(request: OrderRequestView, fresh: FreshIdsView) -> (
    OrderSessionView,
    OrderStepView,
) {
    match request {
        OrderRequestView::FindById(id) => (
            OrderSessionView::AwaitOrder(id, PurposeView::Find),
            OrderStepView::Ask(OrderQueryView::SelectOrder(id)),
        ),
        OrderRequestView::FindAll => (
            OrderSessionView::AwaitOrders,
            OrderStepView::Ask(OrderQueryView::SelectOrders),
        ),
        OrderRequestView::Create(order) => {
            let id = create_id(order, fresh.order);
            (
                OrderSessionView::AwaitCommit(OrderOutcomeView::Stored(order.with_id(id))),
                OrderStepView::Ask(
                    OrderQueryView::Transaction(create_statements(order, id, fresh.lines)),
                ),
            )
        },
        OrderRequestView::Update(id, order) => (
            OrderSessionView::AwaitOrder(id, PurposeView::Update(order, fresh.lines)),
            OrderStepView::Ask(OrderQueryView::SelectOrder(id)),
        ),
        OrderRequestView::Delete(id) => (
            OrderSessionView::AwaitOrder(id, PurposeView::Delete),
            OrderStepView::Ask(OrderQueryView::SelectOrder(id)),
        ),
    }
}

/// A session that ends with an error.
pub open spec fn fail_spec(error: ServiceErrorView) -> (OrderSessionView, OrderStepView) {
    (OrderSessionView::Closed, OrderStepView::Done(Err(error)))
}

/// A session that ends with a result.
pub open spec fn finish_spec(outcome: OrderOutcomeView) -> (OrderSessionView, OrderStepView) {
    (OrderSessionView::Closed, OrderStepView::Done(Ok(outcome)))
}

/// The session after an answer of the engine, and its next step.
///
/// A failure of the engine ends the call with a database error that carries
/// the engine's message. An order row that is missing ends a lookup with
/// nothing found, and an update or a delete with a not-found error, before
/// anything is written.
pub open spec fn advance_spec(session: OrderSessionView, reply: OrderReplyView) -> (
    OrderSessionView,
    OrderStepView,
) {
    match (session, reply) {
        (OrderSessionView::Closed, _) => fail_spec(ServiceErrorView::database(unexpected_reply())),
        (_, OrderReplyView::Failed(message)) => fail_spec(ServiceErrorView::database(message)),
        (OrderSessionView::AwaitOrder(id, purpose), OrderReplyView::Order(None)) => match purpose {
            PurposeView::Find => finish_spec(OrderOutcomeView::Found(None)),
            _ => fail_spec(ServiceErrorView::not_found(order_not_found(id))),
        },
        (OrderSessionView::AwaitOrder(id, purpose), OrderReplyView::Order(Some(row))) => (
            OrderSessionView::AwaitItems(row, purpose),
            OrderStepView::Ask(OrderQueryView::SelectItems(id)),
        ),
        (OrderSessionView::AwaitItems(row, purpose), OrderReplyView::Items(lines)) => match purpose {
            PurposeView::Find => finish_spec(
                OrderOutcomeView::Found(Some(stored_order(row, lines))),
            ),
            PurposeView::Update(order, line_ids) => (
                OrderSessionView::AwaitCommit(OrderOutcomeView::Stored(order.with_id(row.id))),
                OrderStepView::Ask(
                    OrderQueryView::Transaction(update_statements(order, row.id, line_ids)),
                ),
            ),
            PurposeView::Delete => (
                OrderSessionView::AwaitCommit(OrderOutcomeView::Deleted),
                OrderStepView::Ask(OrderQueryView::Transaction(delete_statements(row.id))),
            ),
        },
        (OrderSessionView::AwaitOrders, OrderReplyView::Orders(rows)) => {
            if rows.len() == 0 {
                finish_spec(OrderOutcomeView::Listed(Seq::empty()))
            } else {
                (
                    OrderSessionView::AwaitItemsOf(rows, Seq::empty()),
                    OrderStepView::Ask(OrderQueryView::SelectItems(rows[0].id)),
                )
            }
        },
        (OrderSessionView::AwaitItemsOf(rows, done), OrderReplyView::Items(lines)) => {
            if done.len() >= rows.len() {
                fail_spec(ServiceErrorView::database(unexpected_reply()))
            } else {
                let next = done.push(stored_order(rows[done.len() as int], lines));
                if next.len() == rows.len() {
                    finish_spec(OrderOutcomeView::Listed(next))
                } else {
                    (
                        OrderSessionView::AwaitItemsOf(rows, next),
                        OrderStepView::Ask(
                            OrderQueryView::SelectItems(rows[next.len() as int].id),
                        ),
                    )
                }
            }
        },
        (OrderSessionView::AwaitCommit(outcome), OrderReplyView::Written) => finish_spec(outcome),
        _ => fail_spec(ServiceErrorView::database(unexpected_reply())),
    }
}

impl FreshIds {
    /// Mints an identifier for an order and one for each of `lines` lines.
    pub fn mint(lines: usize) -> (fresh: FreshIds)
        ensures
            fresh@.lines.len() == lines,
            is_random_id(fresh@.order.value),
            forall|k: int| 0 <= k < lines ==> is_random_id((#[trigger] fresh@.lines[k]).value),
    {
        let order = EntityId::mint();
        let mut ids: Vec<EntityId> = Vec::with_capacity(lines);
        let mut i: usize = 0;
        while i < lines
            invariant
                0 <= i <= lines,
                ids.len() == i,
                forall|k: int| 0 <= k < i ==> is_random_id((#[trigger] ids[k]).value),
            decreases lines - i,
        {
            ids.push(EntityId::mint());
            i = i + 1;
        }
        FreshIds { order, lines: ids }
    }
}

impl OrderRequest {
    /// How many fresh line identifiers the call needs.
    pub fn lines_needed(&self) -> (n: usize)
        ensures
            n == lines_needed(self@),
    {
        match self {
            OrderRequest::Create(order) => order.items.len(),
            OrderRequest::Update(_, order) => order.items.len(),
            _ => 0,
        }
    }
}

/// The order row that stores an order under an identifier.
pub fn to_row(order: &Order, id: EntityId) -> (row: OrderRow)
    ensures
        row@ == row_of(order@, id),
{
    OrderRow {
        id,
        customer_id: order.customer_id,
        total: order.total,
        status: String::from_str(OrderRepository::status_to_str(&order.status)),
        created_at: order.created_at,
        updated_at: order.updated_at,
    }
}

/// The order that an order row and its line rows store.
pub fn to_order(row: &OrderRow, lines: &Vec<ItemRow>) -> (order: Order)
    ensures
        order@ == stored_order(row@, lines@),
{
    let mut items: Vec<OrderItem> = Vec::with_capacity(lines.len());
    let mut i: usize = 0;
    while i < lines.len()
        invariant
            0 <= i <= lines.len(),
            items.len() == i,
            forall|k: int| 0 <= k < i ==> (#[trigger] items[k]) == line_item(lines[k]),
        decreases lines.len() - i,
    {
        let line = lines[i];
        items.push(
            OrderItem { product_id: line.product_id, quantity: line.quantity, price: line.price },
        );
        i = i + 1;
    }
    assert(items@ =~= line_items(lines@));
    Order {
        id: Some(row.id),
        customer_id: row.customer_id,
        items,
        total: row.total,
        status: OrderRepository::status_from_str(row.status.as_str()),
        created_at: row.created_at,
        updated_at: row.updated_at,
    }
}

/// Appends to `statements` the inserts of the lines, each under its
/// identifier.
fn push_line_inserts(
    statements: &mut Vec<OrderWrite>,
    items: &Vec<OrderItem>,
    ids: &Vec<EntityId>,
    order_id: EntityId,
)
    requires
        ids.len() == items.len(),
    ensures
        write_views(final(statements)@) == write_views(old(statements)@) + line_inserts(
            items@,
            ids@,
            order_id,
        ),
{
    let mut i: usize = 0;
    while i < items.len()
        invariant
            0 <= i <= items.len(),
            ids.len() == items.len(),
            statements.len() == old(statements).len() + i,
            forall|k: int|
                0 <= k < old(statements).len() ==> (#[trigger] statements[k])@ == old(
                    statements,
                )[k]@,
            forall|k: int|
                0 <= k < i ==> (#[trigger] statements[old(statements).len() + k])@
                    == OrderWriteView::InsertItem(line_row(items[k], ids[k], order_id)),
        decreases items.len() - i,
    {
        let item = items[i];
        statements.push(
            OrderWrite::InsertItem(
                ItemRow {
                    id: ids[i],
                    order_id,
                    product_id: item.product_id,
                    quantity: item.quantity,
                    price: item.price,
                },
            ),
        );
        i = i + 1;
    }
    proof {
        let before = write_views(old(statements)@);
        let added = line_inserts(items@, ids@, order_id);
        let after = write_views(statements@);
        assert(after.len() == before.len() + added.len());
        assert forall|j: int| 0 <= j < after.len() implies after[j] == (before + added)[j] by {
            if j < before.len() {
                assert(statements[j]@ == old(statements)[j]@);
            } else {
                let k = j - before.len();
                assert(statements[old(statements).len() + k]@ == added[k]);
            }
        }
        assert(after =~= before + added);
    }
}

/// The text that says that no order has the identifier.
fn not_found_text(id: EntityId) -> (text: String)
    ensures
        text@ == order_not_found(id),
{
    let mut text = String::from_str("Order with ID ");
    text.append(id.to_text().as_str());
    text.append(" not found");
    text
}

/// A session that ends with an error.
fn fail(error: ServiceError) -> (next: (OrderSession, OrderStep))
    ensures
        (next.0@, next.1@) == fail_spec(error@),
{
    (OrderSession::Closed, OrderStep::Done(Err(error)))
}

/// A session that ends because the answer does not fit the step.
fn fail_unexpected() -> (next: (OrderSession, OrderStep))
    ensures
        (next.0@, next.1@) == fail_spec(ServiceErrorView::database(unexpected_reply())),
{
    fail(ServiceError::DatabaseError(String::from_str("unexpected reply from the storage engine")))
}

/// A session that ends with a result.
fn finish(outcome: OrderOutcome) -> (next: (OrderSession, OrderStep))
    ensures
        (next.0@, next.1@) == finish_spec(outcome@),
{
    (OrderSession::Closed, OrderStep::Done(Ok(outcome)))
}

impl OrderSession {
    /// Whether the session holds one identifier for each line that it will
    /// insert, and has not completed more orders than it has rows.
    pub open spec fn wf(&self) -> bool {
        match self {
            OrderSession::AwaitOrder(_, Purpose::Update(order, line_ids)) => line_ids.len()
                == order.items.len(),
            OrderSession::AwaitItems(_, Purpose::Update(order, line_ids)) => line_ids.len()
                == order.items.len(),
            OrderSession::AwaitItemsOf(rows, done) => done.len() < rows.len(),
            _ => true,
        }
    }

    /// Whether the session is well formed.
    pub fn is_well_formed(&self) -> (ok: bool)
        ensures
            ok == self.wf(),
    {
        match self {
            OrderSession::AwaitOrder(_, Purpose::Update(order, line_ids)) => line_ids.len()
                == order.items.len(),
            OrderSession::AwaitItems(_, Purpose::Update(order, line_ids)) => line_ids.len()
                == order.items.len(),
            OrderSession::AwaitItemsOf(rows, done) => done.len() < rows.len(),
            _ => true,
        }
    }

    /// Opens the session of a call and names its first step.
    pub fn begin(request: OrderRequest, fresh: FreshIds) -> (next: (OrderSession, OrderStep))
        requires
            fresh@.lines.len() == lines_needed(request@),
        ensures
            (next.0@, next.1@) == begin_spec(request@, fresh@),
            next.0.wf(),
    {
        match request {
            OrderRequest::FindById(id) => (
                OrderSession::AwaitOrder(id, Purpose::Find),
                OrderStep::Ask(OrderQuery::SelectOrder(id)),
            ),
            OrderRequest::FindAll => (
                OrderSession::AwaitOrders,
                OrderStep::Ask(OrderQuery::SelectOrders),
            ),
            OrderRequest::Create(order) => {
                let id = match order.id {
                    Some(id) => id,
                    None => fresh.order,
                };
                let mut statements: Vec<OrderWrite> = Vec::new();
                statements.push(OrderWrite::InsertOrder(to_row(&order, id)));
                assert(write_views(statements@) =~= seq![
                    OrderWriteView::InsertOrder(row_of(order@, id)),
                ]);
                push_line_inserts(&mut statements, &order.items, &fresh.lines, id);
                let mut stored = order;
                stored.id = Some(id);
                (
                    OrderSession::AwaitCommit(OrderOutcome::Stored(stored)),
                    OrderStep::Ask(OrderQuery::Transaction(statements)),
                )
            },
            OrderRequest::Update(id, order) => (
                OrderSession::AwaitOrder(id, Purpose::Update(order, fresh.lines)),
                OrderStep::Ask(OrderQuery::SelectOrder(id)),
            ),
            OrderRequest::Delete(id) => (
                OrderSession::AwaitOrder(id, Purpose::Delete),
                OrderStep::Ask(OrderQuery::SelectOrder(id)),
            ),
        }
    }

    /// Takes the engine's answer to the last step and names the next.
    pub fn advance(self, reply: OrderReply) -> (next: (OrderSession, OrderStep))
        requires
            self.wf(),
        ensures
            (next.0@, next.1@) == advance_spec(self@, reply@),
            next.0.wf(),
    {
        match self {
            OrderSession::Closed => fail_unexpected(),
            OrderSession::AwaitOrder(id, purpose) => match reply {
                OrderReply::Failed(message) => fail(ServiceError::DatabaseError(message)),
                OrderReply::Order(None) => match purpose {
                    Purpose::Find => finish(OrderOutcome::Found(None)),
                    _ => fail(ServiceError::NotFoundError(not_found_text(id))),
                },
                OrderReply::Order(Some(row)) => (
                    OrderSession::AwaitItems(row, purpose),
                    OrderStep::Ask(OrderQuery::SelectItems(id)),
                ),
                _ => fail_unexpected(),
            },
            OrderSession::AwaitItems(row, purpose) => match reply {
                OrderReply::Failed(message) => fail(ServiceError::DatabaseError(message)),
                OrderReply::Items(lines) => match purpose {
                    Purpose::Find => finish(OrderOutcome::Found(Some(to_order(&row, &lines)))),
                    Purpose::Update(order, line_ids) => {
                        let id = row.id;
                        let mut statements: Vec<OrderWrite> = Vec::new();
                        statements.push(
                            OrderWrite::UpdateOrder {
                                id,
                                total: order.total,
                                status: String::from_str(
                                    OrderRepository::status_to_str(&order.status),
                                ),
                                updated_at: order.updated_at,
                            },
                        );
                        statements.push(OrderWrite::DeleteItems(id));
                        assert(write_views(statements@) =~= seq![
                            OrderWriteView::UpdateOrder {
                                id,
                                total: order.total,
                                status: status_tag(order.status),
                                updated_at: order.updated_at,
                            },
                            OrderWriteView::DeleteItems(id),
                        ]);
                        push_line_inserts(&mut statements, &order.items, &line_ids, id);
                        let mut stored = order;
                        stored.id = Some(id);
                        (
                            OrderSession::AwaitCommit(OrderOutcome::Stored(stored)),
                            OrderStep::Ask(OrderQuery::Transaction(statements)),
                        )
                    },
                    Purpose::Delete => {
                        let mut statements: Vec<OrderWrite> = Vec::new();
                        statements.push(OrderWrite::DeleteOrder(row.id));
                        assert(write_views(statements@) =~= delete_statements(row.id));
                        (
                            OrderSession::AwaitCommit(OrderOutcome::Deleted),
                            OrderStep::Ask(OrderQuery::Transaction(statements)),
                        )
                    },
                },
                _ => fail_unexpected(),
            },
            OrderSession::AwaitOrders => match reply {
                OrderReply::Failed(message) => fail(ServiceError::DatabaseError(message)),
                OrderReply::Orders(rows) => {
                    if rows.len() == 0 {
                        let listed: Vec<Order> = Vec::new();
                        assert(order_views(listed@) =~= Seq::empty());
                        finish(OrderOutcome::Listed(listed))
                    } else {
                        let first = rows[0].id;
                        let done: Vec<Order> = Vec::with_capacity(rows.len());
                        assert(order_views(done@) =~= Seq::empty());
                        (
                            OrderSession::AwaitItemsOf(rows, done),
                            OrderStep::Ask(OrderQuery::SelectItems(first)),
                        )
                    }
                },
                _ => fail_unexpected(),
            },
            OrderSession::AwaitItemsOf(rows, done) => match reply {
                OrderReply::Failed(message) => fail(ServiceError::DatabaseError(message)),
                OrderReply::Items(lines) => {
                    let mut done = done;
                    let ghost before = order_views(done@);
                    let order = to_order(&rows[done.len()], &lines);
                    done.push(order);
                    assert(order_views(done@) =~= before.push(
                        stored_order(row_views(rows@)[before.len() as int], lines@),
                    ));
                    if done.len() == rows.len() {
                        finish(OrderOutcome::Listed(done))
                    } else {
                        let next = rows[done.len()].id;
                        (
                            OrderSession::AwaitItemsOf(rows, done),
                            OrderStep::Ask(OrderQuery::SelectItems(next)),
                        )
                    }
                },
                _ => fail_unexpected(),
            },
            OrderSession::AwaitCommit(outcome) => match reply {
                OrderReply::Failed(message) => fail(ServiceError::DatabaseError(message)),
                OrderReply::Written => finish(outcome),
                _ => fail_unexpected(),
            },
        }
    }
}

} // verus!
