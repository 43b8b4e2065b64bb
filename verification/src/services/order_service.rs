//! The order service: places orders, moves them from status to status, and
//! hands the rest through to the store.

use crate::clock::Timestamp;
use crate::errors::{ServiceError, ServiceErrorView, ServiceResult};
use crate::ident::EntityId;
use crate::models::order::{
    amount_fits, checked_total, order_total, CreateOrderDto, Order, OrderItem, OrderStatus,
    OrderView, UpdateOrderStatusDto,
};
use crate::repositories::order_laws::{
    law_create_then_find, law_update_replaces_lines, listed_newest_first,
};
use crate::repositories::order_repository::{
    deleted_view, effect, find_in, list_in, stored_view, OrderRepository, OutcomeView,
};
use crate::repositories::order_session::{found_view, order_views, FreshIdsView, OrderRequestView};
use crate::repositories::order_tables::TablesView;
use crate::repositories::repository::Repository;
use vstd::prelude::*;
use vstd::string::*;

verus! {

/// The order service over its store.
#[derive(Debug, PartialEq, Eq)]
pub struct OrderService {
    pub repository: OrderRepository,
}

/// The message of the error for an order whose total cannot be stored.
pub open spec fn total_out_of_range() -> Seq<char> {
    "Order total is out of range"@
}

/// The message of the error for a status update of an order that is not
/// there.
pub open spec fn order_missing(id: EntityId) -> Seq<char> {
    "Order with id "@ + id.text() + " not found"@
}

/// The order that is placed for a customer, or the error where the amount of
/// its lines cannot be stored.
pub open spec fn planned_order(
    customer_id: EntityId,
    items: Seq<OrderItem>,
    id: EntityId,
    now: Timestamp,
) -> Result<OrderView, ServiceErrorView> {
    if amount_fits(order_total(items)) {
        Ok(OrderView::fresh(id, now, customer_id, items))
    } else {
        Err(ServiceErrorView::validation(total_out_of_range()))
    }
}

/// The order that replaces a stored order when its status moves, or the
/// error where no order was found.
pub open spec fn planned_status_update(
    id: EntityId,
    found: Option<OrderView>,
    status: OrderStatus,
    now: Timestamp,
) -> Result<OrderView, ServiceErrorView> {
    match found {
        Some(order) => Ok(order.with_status(status, now)),
        None => Err(ServiceErrorView::not_found(order_missing(id))),
    }
}

/// What placing an order does to the tables, and what it returns.
pub open spec fn placed(
    tables: TablesView,
    customer_id: EntityId,
    items: Seq<OrderItem>,
    id: EntityId,
    now: Timestamp,
    fresh: FreshIdsView,
) -> (TablesView, OutcomeView) {
    match planned_order(customer_id, items, id, now) {
        Ok(order) => effect(tables, OrderRequestView::Create(order), fresh),
        Err(error) => (tables, Err(error)),
    }
}

/// What moving an order to a status does to the tables, and what it
/// returns.
pub open spec fn status_moved(
    tables: TablesView,
    id: EntityId,
    status: OrderStatus,
    now: Timestamp,
    fresh: FreshIdsView,
) -> (TablesView, OutcomeView) {
    match planned_status_update(id, find_in(tables, id), status, now) {
        Ok(order) => effect(tables, OrderRequestView::Update(id, order), fresh),
        Err(error) => (tables, Err(error)),
    }
}

/// The value of an order or an error.
pub open spec fn order_result_view(result: ServiceResult<Order>) -> Result<
    OrderView,
    ServiceErrorView,
> {
    match result {
        Ok(order) => Ok(order@),
        Err(error) => Err(error@),
    }
}

impl OrderService {
    /// What the schema guarantees of the store's tables.
    pub open spec fn wf(&self) -> bool {
        self.repository.tables.wf()
    }

    /// The tables of the store.
    pub open spec fn tables(&self) -> TablesView {
        self.repository.tables@
    }

    pub fn new(repository: OrderRepository) -> (service: OrderService)
        ensures
            service.repository == repository,
    {
        OrderService { repository }
    }

    /// Builds the order for a request to place one, under the identifier and
    /// at the time given.
    pub fn plan_order(dto: CreateOrderDto, id: EntityId, now: Timestamp) -> (result:
        ServiceResult<Order>)
        ensures
            order_result_view(result) == planned_order(dto.customer_id, dto.items@, id, now),
    {
        match checked_total(&dto.items) {
            Some(_) => Ok(Order::assemble(id, now, dto.customer_id, dto.items)),
            None => Err(
                ServiceError::ValidationError(String::from_str("Order total is out of range")),
            ),
        }
    }

    /// Builds the order that replaces a stored one when its status moves:
    /// the stored order with the new status and the time of the move. Its
    /// lines, its total and everything else are those of the stored order.
    pub fn plan_status_update(
        id: EntityId,
        found: Option<Order>,
        dto: UpdateOrderStatusDto,
        now: Timestamp,
    ) -> (result: ServiceResult<Order>)
        ensures
            order_result_view(result) == planned_status_update(
                id,
                found_view(found),
                dto.status,
                now,
            ),
    {
        match found {
            Some(existing) => {
                let mut updated = existing;
                updated.status = dto.status;
                updated.updated_at = now;
                Ok(updated)
            },
            None => {
                let mut text = String::from_str("Order with id ");
                text.append(id.to_text().as_str());
                text.append(" not found");
                Err(ServiceError::NotFoundError(text))
            },
        }
    }

    /// The order with the identifier, if there is one.
    pub fn get_order(&self, id: EntityId) -> (result: ServiceResult<Option<Order>>)
        requires
            self.wf(),
        ensures
            result matches Ok(found) && found_view(found) == find_in(self.tables(), id),
    {
        self.repository.find_by_id(id)
    }

    /// Every order, newest first.
    pub fn get_all_orders(&self) -> (result: ServiceResult<Vec<Order>>)
        requires
            self.wf(),
        ensures
            result matches Ok(orders) && order_views(orders@) == list_in(self.tables()),
            listed_newest_first(list_in(self.tables())),
    {
        self.repository.find_all()
    }

    /// Places an order: pending, stamped with the current time, with a
    /// fresh identifier and the amount of its lines as its total, and stores
    /// it. An order whose amount cannot be stored is refused with a
    /// validation error before anything is written.
    pub fn create_order(&mut self, dto: CreateOrderDto) -> (result: ServiceResult<Order>)
        requires
            old(self).wf(),
        ensures
            final(self).wf(),
            exists|id: EntityId, now: Timestamp, fresh: FreshIdsView|
                fresh.lines.len() == dto.items@.len() && #[trigger] placed(
                    old(self).tables(),
                    dto.customer_id,
                    dto.items@,
                    id,
                    now,
                    fresh,
                ) == (final(self).tables(), stored_view(result)),
            result matches Ok(order) ==> {
                &&& order@.total == order_total(dto.items@)
                &&& order@.items == dto.items@
                &&& order@.customer_id == dto.customer_id
                &&& order@.status == OrderStatus::Pending
                &&& order@.created_at == order@.updated_at
                &&& order@.id is Some
                &&& find_in(final(self).tables(), order@.id->0) == Some(order@)
            },
            result is Err ==> final(self).tables() == old(self).tables(),
            !amount_fits(order_total(dto.items@)) ==> result is Err,
    {
        let ghost before = self.tables();
        let ghost customer_id = dto.customer_id;
        let ghost items = dto.items@;
        match checked_total(&dto.items) {
            None => {
                let result = Err(
                    ServiceError::ValidationError(String::from_str("Order total is out of range")),
                );
                proof {
                    let fresh = FreshIdsView {
                        order: EntityId { value: 0 },
                        lines: Seq::new(items.len(), |i: int| EntityId { value: 0 }),
                    };
                    assert(placed(
                        before,
                        customer_id,
                        items,
                        EntityId { value: 0 },
                        Timestamp { seconds: 0, nanos: 0 },
                        fresh,
                    ) == (self.tables(), stored_view(result)));
                }
                result
            },
            Some(_) => {
                let order = Order::new(dto.customer_id, dto.items);
                let ghost planned = order@;
                let result = self.repository.create(order);
                proof {
                    let fresh = choose|fresh: FreshIdsView|
                        fresh.lines.len() == planned.items.len() && #[trigger] effect(
                            before,
                            OrderRequestView::Create(planned),
                            fresh,
                        ) == (self.tables(), stored_view(result));
                    assert(placed(
                        before,
                        customer_id,
                        items,
                        planned.id->0,
                        planned.created_at,
                        fresh,
                    ) == (self.tables(), stored_view(result)));
                    if result is Ok {
                        law_create_then_find(before, planned, fresh);
                    }
                }
                result
            },
        }
    }

    /// Moves an order to another status: loads it, replaces its status and
    /// its time of update, and stores it again with its lines as they were.
    /// Where no order has the identifier, the call fails with a not-found
    /// error and writes nothing.
    pub fn update_order_status(&mut self, id: EntityId, dto: UpdateOrderStatusDto) -> (result:
        ServiceResult<Order>)
        requires
            old(self).wf(),
        ensures
            final(self).wf(),
            exists|now: Timestamp, fresh: FreshIdsView| #[trigger]
                status_moved(old(self).tables(), id, dto.status, now, fresh) == (
                    final(self).tables(),
                    stored_view(result),
                ),
            find_in(old(self).tables(), id) is None ==> {
                &&& final(self).tables() == old(self).tables()
                &&& order_result_view(result) == Err::<OrderView, ServiceErrorView>(
                    ServiceErrorView::not_found(order_missing(id)),
                )
            },
            result matches Ok(order) ==> {
                &&& find_in(old(self).tables(), id) matches Some(stored)
                &&& order@.status == dto.status
                &&& order@.items == stored.items
                &&& order@.total == stored.total
                &&& order@.customer_id == stored.customer_id
                &&& order@.created_at == stored.created_at
                &&& find_in(final(self).tables(), id) == Some(order@)
            },
            result is Err ==> final(self).tables() == old(self).tables(),
    {
        let ghost before = self.tables();
        let now = Timestamp::now();
        let found = match self.repository.find_by_id(id) {
            Ok(found) => found,
            Err(error) => {
                return Err(error);
            },
        };
        match OrderService::plan_status_update(id, found, dto, now) {
            Err(error) => {
                let result = Err(error);
                proof {
                    let fresh = FreshIdsView { order: id, lines: Seq::empty() };
                    assert(status_moved(before, id, dto.status, now, fresh) == (
                        self.tables(),
                        stored_view(result),
                    ));
                }
                result
            },
            Ok(updated) => {
                let ghost planned = updated@;
                let result = self.repository.update(id, updated);
                proof {
                    let fresh = choose|fresh: FreshIdsView|
                        fresh.lines.len() == planned.items.len() && #[trigger] effect(
                            before,
                            OrderRequestView::Update(id, planned),
                            fresh,
                        ) == (self.tables(), stored_view(result));
                    assert(status_moved(before, id, dto.status, now, fresh) == (
                        self.tables(),
                        stored_view(result),
                    ));
                    if result is Ok {
                        law_update_replaces_lines(before, id, planned, fresh);
                    }
                }
                result
            },
        }
    }

    /// Removes the order with the identifier and its lines.
    pub fn delete_order(&mut self, id: EntityId) -> (result: ServiceResult<()>)
        requires
            old(self).wf(),
        ensures
            final(self).wf(),
            forall|fresh: FreshIdsView|
                #[trigger] effect(old(self).tables(), OrderRequestView::Delete(id), fresh) == (
                    final(self).tables(),
                    deleted_view(result),
                ),
    {
        self.repository.delete(id)
    }
}

/// Moving an order to a status changes its status and its time of update
/// and nothing else: its lines and its total are found as they were.
pub proof fn law_status_update_keeps_lines(
    tables: TablesView,
    id: EntityId,
    status: OrderStatus,
    now: Timestamp,
    fresh: FreshIdsView,
)
    requires
        tables.wf(),
        find_in(tables, id) matches Some(stored) && fresh.lines.len() == stored.items.len(),
        status_moved(tables, id, status, now, fresh).1 is Ok,
    ensures
        find_in(status_moved(tables, id, status, now, fresh).0, id) == Some(
            find_in(tables, id)->0.with_status(status, now),
        ),
{
    let stored = find_in(tables, id)->0;
    law_update_replaces_lines(tables, id, stored.with_status(status, now), fresh);
}

/// An order that was placed carries the amount of its lines as its total.
pub proof fn law_total_is_sum_of_lines(
    customer_id: EntityId,
    items: Seq<OrderItem>,
    id: EntityId,
    now: Timestamp,
)
    ensures
        planned_order(customer_id, items, id, now) matches Ok(order) ==> order.total == order_total(
            order.items,
        ),
{
}

} // verus!
