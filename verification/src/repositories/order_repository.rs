//! The relational order store: an order and its lines kept consistent across
//! two tables.

use crate::errors::{ServiceError, ServiceErrorView, ServiceResult};
use crate::ident::EntityId;
use crate::models::order::{Order, OrderStatus, OrderView};
use crate::repositories::order_engine::OrderTables;
use crate::repositories::order_session::{
    advance_spec, begin_spec, create_id, create_statements, delete_statements, found_view,
    lines_needed, order_not_found, order_views, outcome_view, stored_order, update_statements,
    FreshIds, FreshIdsView, OrderOutcome, OrderOutcomeView, OrderRequest, OrderRequestView,
    OrderSession, OrderSessionView, OrderStep, OrderStepView, PurposeView,
};
use crate::repositories::order_laws::{
    law_list_is_newest_first, lemma_created, lemma_updated, listed_newest_first,
};
use crate::repositories::order_tables::{
    has_order, lemma_deleted_order, order_position, TablesView, Violation,
};
use crate::repositories::repository::Repository;
use crate::repositories::relational::{OrderQueryView, OrderWriteView};
use vstd::prelude::*;
use vstd::string::*;

verus! {

/// The tag under which a status is stored.
pub open spec fn status_tag(status: OrderStatus) -> Seq<char> {
    match status {
        OrderStatus::Pending => "pending"@,
        OrderStatus::Processing => "processing"@,
        OrderStatus::Shipped => "shipped"@,
        OrderStatus::Delivered => "delivered"@,
        OrderStatus::Cancelled => "cancelled"@,
    }
}

/// The status that a stored tag stands for. A tag that is none of the five
/// stands for a pending order.
pub open spec fn status_of_tag(tag: Seq<char>) -> OrderStatus {
    if tag == "processing"@ {
        OrderStatus::Processing
    } else if tag == "shipped"@ {
        OrderStatus::Shipped
    } else if tag == "delivered"@ {
        OrderStatus::Delivered
    } else if tag == "cancelled"@ {
        OrderStatus::Cancelled
    } else {
        OrderStatus::Pending
    }
}

/// Whether two texts are the same.
pub fn same_text(a: &str, b: &str) -> (same: bool)
    ensures
        same == (a@ == b@),
{
    let left = a.to_owned();
    let right = b.to_owned();
    left == right
}

/// The relational order store. It keeps its tables in memory.
#[derive(Debug, PartialEq, Eq)]
pub struct OrderRepository {
    pub tables: OrderTables,
}

impl OrderRepository {
    /// The status that a stored tag stands for.
    pub fn status_from_str(status: &str) -> (decoded: OrderStatus)
        ensures
            decoded == status_of_tag(status@),
    {
        if same_text(status, "processing") {
            OrderStatus::Processing
        } else if same_text(status, "shipped") {
            OrderStatus::Shipped
        } else if same_text(status, "delivered") {
            OrderStatus::Delivered
        } else if same_text(status, "cancelled") {
            OrderStatus::Cancelled
        } else {
            OrderStatus::Pending
        }
    }

    /// The tag under which a status is stored.
    pub fn status_to_str(status: &OrderStatus) -> (tag: &'static str)
        ensures
            tag@ == status_tag(*status),
    {
        match status {
            OrderStatus::Pending => "pending",
            OrderStatus::Processing => "processing",
            OrderStatus::Shipped => "shipped",
            OrderStatus::Delivered => "delivered",
            OrderStatus::Cancelled => "cancelled",
        }
    }
}

/// A stored tag stands for the status that it was written for: the five tags
/// differ in their first character or in their length.
pub proof fn lemma_status_round_trip(status: OrderStatus)
    ensures
        status_of_tag(status_tag(status)) == status,
{
    reveal_strlit("pending");
    reveal_strlit("processing");
    reveal_strlit("shipped");
    reveal_strlit("delivered");
    reveal_strlit("cancelled");
    assert("pending"@[0] == 'p');
    assert("processing"@.len() == 10);
    assert("shipped"@[0] == 's');
    assert("delivered"@[0] == 'd');
    assert("cancelled"@[0] == 'c');
}

/// The result of a call on the store, as a value.
pub type OutcomeView = Result<OrderOutcomeView, ServiceErrorView>;

/// The order that the tables store under an identifier, if they store one:
/// its row together with its lines.
pub open spec fn find_in(tables: TablesView, id: EntityId) -> Option<OrderView> {
    match tables.order(id) {
        Some(row) => Some(stored_order(row, tables.lines(id))),
        None => None,
    }
}

/// Every order that the tables store, newest first.
pub open spec fn list_in(tables: TablesView) -> Seq<OrderView> {
    Seq::new(
        tables.orders.len(),
        |i: int| stored_order(tables.orders[i], tables.lines(tables.orders[i].id)),
    )
}

/// The tables after a transaction and the result of the call that sent it:
/// the given outcome where the engine commits, and otherwise a database
/// error with the engine's message and the tables as they were.
pub open spec fn commit_in(
    tables: TablesView,
    statements: Seq<OrderWriteView>,
    outcome: OrderOutcomeView,
) -> (TablesView, OutcomeView) {
    match tables.write_all(statements) {
        Ok(after) => (after, Ok(outcome)),
        Err(violation) => (tables, Err(ServiceErrorView::database(violation.message()))),
    }
}

/// What a call on the store does to the tables, and what it returns.
pub open spec fn effect(tables: TablesView, request: OrderRequestView, fresh: FreshIdsView) -> (
    TablesView,
    OutcomeView,
) {
    match request {
        OrderRequestView::FindById(id) => (tables, Ok(OrderOutcomeView::Found(find_in(tables, id)))),
        OrderRequestView::FindAll => (tables, Ok(OrderOutcomeView::Listed(list_in(tables)))),
        OrderRequestView::Create(order) => {
            let id = create_id(order, fresh.order);
            commit_in(
                tables,
                create_statements(order, id, fresh.lines),
                OrderOutcomeView::Stored(order.with_id(id)),
            )
        },
        OrderRequestView::Update(id, order) => {
            if has_order(tables.orders, id) {
                commit_in(
                    tables,
                    update_statements(order, id, fresh.lines),
                    OrderOutcomeView::Stored(order.with_id(id)),
                )
            } else {
                (tables, Err(ServiceErrorView::not_found(order_not_found(id))))
            }
        },
        OrderRequestView::Delete(id) => {
            if has_order(tables.orders, id) {
                commit_in(tables, delete_statements(id), OrderOutcomeView::Deleted)
            } else {
                (tables, Err(ServiceErrorView::not_found(order_not_found(id))))
            }
        },
    }
}

/// Whether a purpose is the one with which the call looks an order up.
pub open spec fn purpose_fits(
    request: OrderRequestView,
    fresh: FreshIdsView,
    id: EntityId,
    purpose: PurposeView,
) -> bool {
    match request {
        OrderRequestView::FindById(wanted) => wanted == id && purpose == PurposeView::Find,
        OrderRequestView::Update(wanted, order) => wanted == id && purpose == PurposeView::Update(
            order,
            fresh.lines,
        ),
        OrderRequestView::Delete(wanted) => wanted == id && purpose == PurposeView::Delete,
        _ => false,
    }
}

/// Whether a session and its next step are a stage of the call on the
/// tables: what has been read agrees with the tables, and what is left to do
/// leads to the effect of the call.
pub open spec fn on_course(
    tables: TablesView,
    request: OrderRequestView,
    fresh: FreshIdsView,
    session: OrderSessionView,
    step: OrderStepView,
) -> bool {
    match step {
        OrderStepView::Done(result) => (tables, result) == effect(tables, request, fresh),
        OrderStepView::Ask(query) => match session {
            OrderSessionView::AwaitOrder(id, purpose) => {
                &&& query == OrderQueryView::SelectOrder(id)
                &&& purpose_fits(request, fresh, id, purpose)
            },
            OrderSessionView::AwaitItems(row, purpose) => {
                &&& query == OrderQueryView::SelectItems(row.id)
                &&& purpose_fits(request, fresh, row.id, purpose)
                &&& tables.order(row.id) == Some(row)
            },
            OrderSessionView::AwaitOrders => {
                &&& query == OrderQueryView::SelectOrders
                &&& request == OrderRequestView::FindAll
            },
            OrderSessionView::AwaitItemsOf(rows, done) => {
                &&& request == OrderRequestView::FindAll
                &&& rows == tables.orders
                &&& done.len() < rows.len()
                &&& done == list_in(tables).take(done.len() as int)
                &&& query == OrderQueryView::SelectItems(rows[done.len() as int].id)
            },
            OrderSessionView::AwaitCommit(outcome) => {
                &&& query is Transaction
                &&& request is Create || request is Update || request is Delete
                &&& commit_in(tables, query->Transaction_0, outcome) == effect(
                    tables,
                    request,
                    fresh,
                )
            },
            OrderSessionView::Closed => false,
        },
    }
}

/// How many reads a session may still ask for, at most.
pub open spec fn reads_left(tables: TablesView, session: OrderSessionView, step: OrderStepView) -> nat {
    match step {
        OrderStepView::Done(_) => 0,
        OrderStepView::Ask(_) => match session {
            OrderSessionView::AwaitOrder(_, _) => 2,
            OrderSessionView::AwaitItems(_, _) => 1,
            OrderSessionView::AwaitOrders => tables.orders.len() + 1,
            OrderSessionView::AwaitItemsOf(rows, done) => (rows.len() - done.len()) as nat,
            _ => 0,
        },
    }
}

/// A call that has just begun is on course.
pub proof fn lemma_begin_on_course(
    tables: TablesView,
    request: OrderRequestView,
    fresh: FreshIdsView,
)
    ensures
        on_course(
            tables,
            request,
            fresh,
            begin_spec(request, fresh).0,
            begin_spec(request, fresh).1,
        ),
{
}

/// A call that is on course stays on course when the engine answers a read
/// from the tables, and has fewer reads left.
pub proof fn lemma_read_stays_on_course(
    tables: TablesView,
    request: OrderRequestView,
    fresh: FreshIdsView,
    session: OrderSessionView,
    query: OrderQueryView,
)
    requires
        tables.wf(),
        on_course(tables, request, fresh, session, OrderStepView::Ask(query)),
        !(query is Transaction),
    ensures
        tables.answer(query).0 == tables,
        on_course(
            tables,
            request,
            fresh,
            advance_spec(session, tables.answer(query).1).0,
            advance_spec(session, tables.answer(query).1).1,
        ),
        reads_left(
            tables,
            advance_spec(session, tables.answer(query).1).0,
            advance_spec(session, tables.answer(query).1).1,
        ) < reads_left(tables, session, OrderStepView::Ask(query)),
{
    let reply = tables.answer(query).1;
    let next = advance_spec(session, reply);
    match session {
        OrderSessionView::AwaitOrder(id, purpose) => {
            if has_order(tables.orders, id) {
                let row = tables.orders[order_position(tables.orders, id)];
                assert(row.id == id);
            }
        },
        OrderSessionView::AwaitItems(row, purpose) => {
            assert(has_order(tables.orders, row.id));
        },
        OrderSessionView::AwaitOrders => {
            if tables.orders.len() == 0 {
                assert(list_in(tables) =~= Seq::empty());
            } else {
                assert(list_in(tables).take(0) =~= Seq::empty());
            }
        },
        OrderSessionView::AwaitItemsOf(rows, done) => {
            let n = done.len() as int;
            let more = done.push(stored_order(rows[n], tables.lines(rows[n].id)));
            assert(more =~= list_in(tables).take(n + 1));
            if more.len() == rows.len() {
                assert(list_in(tables).take(n + 1) =~= list_in(tables));
            }
        },
        _ => {},
    }
}

/// A call that is on course ends with its effect when the engine answers
/// its transaction.
pub proof fn lemma_commit_ends_call(
    tables: TablesView,
    request: OrderRequestView,
    fresh: FreshIdsView,
    session: OrderSessionView,
    query: OrderQueryView,
)
    requires
        on_course(tables, request, fresh, session, OrderStepView::Ask(query)),
        query is Transaction,
    ensures
        advance_spec(session, tables.answer(query).1).1 is Done,
        (tables.answer(query).0, advance_spec(session, tables.answer(query).1).1->Done_0)
            == effect(tables, request, fresh),
{
}

/// The value of the result of a call that returns the stored order.
pub open spec fn stored_view(result: ServiceResult<Order>) -> OutcomeView {
    match result {
        Ok(order) => Ok(OrderOutcomeView::Stored(order@)),
        Err(error) => Err(error@),
    }
}

/// The value of the result of a call that returns nothing.
pub open spec fn deleted_view(result: ServiceResult<()>) -> OutcomeView {
    match result {
        Ok(_) => Ok(OrderOutcomeView::Deleted),
        Err(error) => Err(error@),
    }
}

/// The error of a call that ends in a way that its course rules out, of
/// unknown kind. The contracts below show that it is never returned.
fn out_of_course() -> (error: ServiceError)
    ensures
        error@ == ServiceErrorView::unknown("the call left its course"@),
{
    ServiceError::UnknownError(String::from_str("the call left its course"))
}

/// Asks the tables for everything that the session wants to read, until the
/// session is done or wants to write.
fn settle(
    tables: &OrderTables,
    session: OrderSession,
    step: OrderStep,
    Ghost(request): Ghost<OrderRequestView>,
    Ghost(fresh): Ghost<FreshIdsView>,
) -> (next: (OrderSession, OrderStep))
    requires
        tables.wf(),
        session.wf(),
        on_course(tables@, request, fresh, session@, step@),
    ensures
        next.0.wf(),
        on_course(tables@, request, fresh, next.0@, next.1@),
        next.1@ matches OrderStepView::Ask(query) ==> query is Transaction,
{
    let mut session = session;
    let mut step = step;
    loop
        invariant
            tables.wf(),
            session.wf(),
            on_course(tables@, request, fresh, session@, step@),
        decreases reads_left(tables@, session@, step@),
    {
        match step {
            OrderStep::Done(result) => {
                return (session, OrderStep::Done(result));
            },
            OrderStep::Ask(query) => {
                match tables.read(&query) {
                    None => {
                        return (session, OrderStep::Ask(query));
                    },
                    Some(reply) => {
                        proof {
                            lemma_read_stays_on_course(tables@, request, fresh, session@, query@);
                        }
                        let next = session.advance(reply);
                        session = next.0;
                        step = next.1;
                    },
                }
            },
        }
    }
}

impl OrderRepository {
    /// What the schema guarantees of the tables.
    pub open spec fn wf(&self) -> bool {
        self.tables.wf()
    }

    /// A store over the given tables.
    pub fn new(tables: OrderTables) -> (repository: OrderRepository)
        ensures
            repository.tables == tables,
    {
        OrderRepository { tables }
    }

    /// Carries out a call with the given fresh identifiers: runs its session
    /// against the tables until it is done.
    pub fn run(&mut self, request: OrderRequest, fresh: FreshIds) -> (result: ServiceResult<
        OrderOutcome,
    >)
        requires
            old(self).wf(),
            fresh@.lines.len() == lines_needed(request@),
        ensures
            final(self).wf(),
            (final(self).tables@, outcome_view(result)) == effect(
                old(self).tables@,
                request@,
                fresh@,
            ),
    {
        let ghost request_view = request@;
        let ghost fresh_view = fresh@;
        proof {
            lemma_begin_on_course(self.tables@, request_view, fresh_view);
        }
        let begun = OrderSession::begin(request, fresh);
        let settled = settle(
            &self.tables,
            begun.0,
            begun.1,
            Ghost(request_view),
            Ghost(fresh_view),
        );
        match settled.1 {
            OrderStep::Done(result) => result,
            OrderStep::Ask(query) => {
                proof {
                    lemma_commit_ends_call(
                        self.tables@,
                        request_view,
                        fresh_view,
                        settled.0@,
                        query@,
                    );
                }
                let reply = self.tables.answer(&query);
                let ended = settled.0.advance(reply);
                match ended.1 {
                    OrderStep::Done(result) => result,
                    OrderStep::Ask(_) => Err(out_of_course()),
                }
            },
        }
    }

    /// Carries out a call that only reads.
    fn inspect(&self, request: OrderRequest) -> (result: ServiceResult<OrderOutcome>)
        requires
            self.wf(),
            request is FindById || request is FindAll,
        ensures
            request@ matches OrderRequestView::FindById(id) ==> outcome_view(result) == Ok::<
                OrderOutcomeView,
                ServiceErrorView,
            >(OrderOutcomeView::Found(find_in(self.tables@, id))),
            request@ is FindAll ==> outcome_view(result) == Ok::<
                OrderOutcomeView,
                ServiceErrorView,
            >(OrderOutcomeView::Listed(list_in(self.tables@))),
    {
        let ghost request_view = request@;
        let fresh = FreshIds { order: EntityId { value: 0 }, lines: Vec::new() };
        let ghost fresh_view = fresh@;
        proof {
            lemma_begin_on_course(self.tables@, request_view, fresh_view);
        }
        let begun = OrderSession::begin(request, fresh);
        let settled = settle(
            &self.tables,
            begun.0,
            begun.1,
            Ghost(request_view),
            Ghost(fresh_view),
        );
        match settled.1 {
            OrderStep::Done(result) => result,
            OrderStep::Ask(_) => Err(out_of_course()),
        }
    }

    /// Stores a new order under the given fresh identifiers.
    pub fn create_with(&mut self, item: Order, fresh: FreshIds) -> (result: ServiceResult<Order>)
        requires
            old(self).wf(),
            fresh@.lines.len() == item@.items.len(),
        ensures
            final(self).wf(),
            (final(self).tables@, stored_view(result)) == effect(
                old(self).tables@,
                OrderRequestView::Create(item@),
                fresh@,
            ),
    {
        match self.run(OrderRequest::Create(item), fresh) {
            Ok(OrderOutcome::Stored(order)) => Ok(order),
            Ok(_) => Err(out_of_course()),
            Err(error) => Err(error),
        }
    }

    /// Replaces the order with the identifier, giving its lines the fresh
    /// identifiers.
    pub fn update_with(&mut self, id: EntityId, item: Order, fresh: FreshIds) -> (result:
        ServiceResult<Order>)
        requires
            old(self).wf(),
            fresh@.lines.len() == item@.items.len(),
        ensures
            final(self).wf(),
            (final(self).tables@, stored_view(result)) == effect(
                old(self).tables@,
                OrderRequestView::Update(id, item@),
                fresh@,
            ),
    {
        match self.run(OrderRequest::Update(id, item), fresh) {
            Ok(OrderOutcome::Stored(order)) => Ok(order),
            Ok(_) => Err(out_of_course()),
            Err(error) => Err(error),
        }
    }
}

impl Repository<Order, EntityId> for OrderRepository {
    open spec fn wf(&self) -> bool {
        self.tables.wf()
    }

    open spec fn holds(&self, id: EntityId) -> bool {
        has_order(self.tables@.orders, id)
    }

    open spec fn id_of(item: &Order) -> Option<EntityId> {
        item.id
    }

    /// The order with the identifier, assembled from its row and its lines.
    /// In memory this never fails.
    fn find_by_id(&self, id: EntityId) -> (result: ServiceResult<Option<Order>>)
        ensures
            result matches Ok(found) && found_view(found)
                == find_in(self.tables@, id),
    {
        proof {
            if has_order(self.tables@.orders, id) {
                assert(self.tables@.orders[order_position(self.tables@.orders, id)].id == id);
            }
        }
        let outcome = self.inspect(OrderRequest::FindById(id));
        match outcome {
            Ok(OrderOutcome::Found(found)) => Ok(found),
            Ok(_) => Err(out_of_course()),
            Err(error) => Err(error),
        }
    }

    /// Every order, newest first, each assembled from its row and its
    /// lines. In memory this never fails.
    fn find_all(&self) -> (result: ServiceResult<Vec<Order>>)
        ensures
            result matches Ok(orders) && order_views(orders@)
                == list_in(self.tables@),
            listed_newest_first(list_in(self.tables@)),
    {
        proof {
            law_list_is_newest_first(self.tables@);
        }
        let outcome = self.inspect(OrderRequest::FindAll);
        match outcome {
            Ok(OrderOutcome::Listed(orders)) => {
                assert forall|i: int| 0 <= i < orders.len() implies Self::id_of(
                    #[trigger] &orders[i],
                ) is Some by {
                    let listed = list_in(self.tables@);
                    assert(listed.len() == self.tables@.orders.len());
                    assert(order_views(orders@).len()
                        == orders.len());
                    assert(order_views(orders@)[i]
                        == orders[i]@);
                    assert(orders[i]@ == listed[i]);
                    assert(listed[i].id == Some(self.tables@.orders[i].id));
                    assert(self.tables@.orders[i].id == orders[i].id->0);
                }
                Ok(orders)
            },
            Ok(_) => Err(out_of_course()),
            Err(error) => Err(error),
        }
    }

    /// Stores a new order in one transaction. The identifiers of its line
    /// rows, and its own where it carries none, are minted here; whatever
    /// they are, the call does what [`OrderRepository::create_with`] does with
    /// them.
    fn create(&mut self, item: Order) -> (result: ServiceResult<Order>)
        ensures
            exists|fresh: FreshIdsView|
                fresh.lines.len() == item@.items.len() && #[trigger] effect(
                    old(self).tables@,
                    OrderRequestView::Create(item@),
                    fresh,
                ) == (final(self).tables@, stored_view(result)),
    {
        let fresh = FreshIds::mint(item.items.len());
        let ghost before = self.tables@;
        let ghost fresh_view = fresh@;
        let ghost order = item@;
        let result = self.create_with(item, fresh);
        proof {
            let id = create_id(order, fresh_view.order);
            if result is Ok {
                lemma_created(before, order, id, fresh_view.lines);
                assert forall|other: EntityId| other != id implies has_order(
                    self.tables@.orders,
                    other,
                ) == has_order(before.orders, other) by {
                    assert(self.tables@.order(other) == before.order(other));
                }
            }
        }
        result
    }

    /// Replaces an order in one transaction, after making sure that it is
    /// stored. The identifiers of the new line rows are minted here.
    fn update(&mut self, id: EntityId, item: Order) -> (result: ServiceResult<Order>)
        ensures
            exists|fresh: FreshIdsView|
                fresh.lines.len() == item@.items.len() && #[trigger] effect(
                    old(self).tables@,
                    OrderRequestView::Update(id, item@),
                    fresh,
                ) == (final(self).tables@, stored_view(result)),
    {
        let fresh = FreshIds::mint(item.items.len());
        let ghost before = self.tables@;
        let ghost fresh_view = fresh@;
        let ghost order = item@;
        let result = self.update_with(id, item, fresh);
        proof {
            if result is Ok {
                lemma_updated(before, order, id, fresh_view.lines);
            }
        }
        result
    }

    /// Removes an order, after making sure that it is stored. Its line rows
    /// go with its row.
    fn delete(&mut self, id: EntityId) -> (result: ServiceResult<()>)
        ensures
            forall|fresh: FreshIdsView|
                #[trigger] effect(old(self).tables@, OrderRequestView::Delete(id), fresh) == (
                    final(self).tables@,
                    deleted_view(result),
                ),
    {
        let fresh = FreshIds { order: id, lines: Vec::new() };
        let ghost before = self.tables@;
        let outcome = self.run(OrderRequest::Delete(id), fresh);
        proof {
            lemma_deleted_order(before, id);
            let statements = delete_statements(id);
            assert(statements.first() == OrderWriteView::DeleteOrder(id));
            assert(statements.drop_first() =~= Seq::<OrderWriteView>::empty());
            let next = before.write(OrderWriteView::DeleteOrder(id))->Ok_0;
            assert(next.write_all(statements.drop_first()) == Ok::<TablesView, Violation>(next));
            assert(before.write_all(statements) == Ok::<TablesView, Violation>(next));
        }
        match outcome {
            Ok(_) => Ok(()),
            Err(error) => Err(error),
        }
    }
}

} // verus!
