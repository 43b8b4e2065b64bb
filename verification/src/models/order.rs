//! Orders and their line items.

use crate::clock::Timestamp;
use crate::ident::EntityId;
use vstd::prelude::*;

verus! {

/// One line of an order: a product, how many of it, and the unit price at the
/// time of the order, in hundredths of the currency unit.
#[derive(Debug, Clone, Copy, PartialEq, Eq, Structural)]
pub struct OrderItem {
    pub product_id: EntityId,
    pub quantity: i32,
    pub price: i64,
}

/// Where an order stands. A new order is pending.
#[derive(Debug, Clone, Copy, PartialEq, Eq, Structural)]
pub enum OrderStatus {
    Pending,
    Processing,
    Shipped,
    Delivered,
    Cancelled,
}

/// An order with the lines it owns.
#[derive(Debug, Clone, PartialEq, Eq)]
pub struct Order {
    pub id: Option<EntityId>,
    pub customer_id: EntityId,
    pub items: Vec<OrderItem>,
    pub total: i64,
    pub status: OrderStatus,
    pub created_at: Timestamp,
    pub updated_at: Timestamp,
}

/// The mathematical value of an [`Order`].
pub struct OrderView {
    pub id: Option<EntityId>,
    pub customer_id: EntityId,
    pub items: Seq<OrderItem>,
    pub total: i64,
    pub status: OrderStatus,
    pub created_at: Timestamp,
    pub updated_at: Timestamp,
}

/// What a caller supplies to place an order.
#[derive(Debug, Clone, PartialEq, Eq)]
pub struct CreateOrderDto {
    pub customer_id: EntityId,
    pub items: Vec<OrderItem>,
}

/// What a caller supplies to move an order to another status.
#[derive(Debug, Clone, Copy, PartialEq, Eq, Structural)]
pub struct UpdateOrderStatusDto {
    pub status: OrderStatus,
}

/// The amount of one line: unit price times quantity.
pub open spec fn line_total(item: OrderItem) -> int {
    item.price as int * item.quantity as int
}

/// The amount of an order: the sum of the amounts of its lines.
pub open spec fn order_total(items: Seq<OrderItem>) -> int
    decreases items.len(),
{
    if items.len() == 0 {
        0
    } else {
        order_total(items.drop_last()) + line_total(items.last())
    }
}

/// Whether an amount can be stored in an order.
pub open spec fn amount_fits(amount: int) -> bool {
    i64::MIN <= amount <= i64::MAX
}

/// The largest magnitude that the amount of one line can have.
pub open spec fn line_bound() -> int {
    0x4000_0000_0000_0000_0000_0000
}

/// The base in which a running amount is kept as two digits.
pub open spec fn limb() -> int {
    0x1_0000_0000_0000_0000_0000_0000
}

proof fn lemma_line_bound(item: OrderItem)
    ensures
        -line_bound() <= line_total(item) <= line_bound(),
{
    let p = item.price as int;
    let q = item.quantity as int;
    assert(-0x4000_0000_0000_0000_0000_0000 <= p * q <= 0x4000_0000_0000_0000_0000_0000)
        by (nonlinear_arith)
        requires
            -0x8000_0000_0000_0000 <= p <= 0x8000_0000_0000_0000,
            -0x8000_0000 <= q <= 0x8000_0000,
    ;
}

/// The amount of a list of lines with one more line at its end.
pub proof fn lemma_order_total_push(items: Seq<OrderItem>, item: OrderItem)
    ensures
        order_total(items.push(item)) == order_total(items) + line_total(item),
{
    assert(items.push(item).drop_last() =~= items);
}

/// The sum of the amounts of the lines, or nothing where the sum cannot be
/// stored in an order.
pub fn checked_total(items: &Vec<OrderItem>) -> (total: Option<i64>)
    ensures
        amount_fits(order_total(items@)) ==> total == Some(order_total(items@) as i64),
        !amount_fits(order_total(items@)) ==> total is None,
{
    // The running amount is `high * limb + low`, with `low` below one limb.
    let mut high: i128 = 0;
    let mut low: i128 = 0;
    let mut i: usize = 0;
    while i < items.len()
        invariant
            0 <= i <= items.len(),
            0 <= low < limb(),
            -(i as int) <= high <= i as int,
            order_total(items@.take(i as int)) == high * limb() + low,
        decreases items.len() - i,
    {
        let item = items[i];
        proof {
            lemma_line_bound(item);
            assert(items@.take(i as int + 1) =~= items@.take(i as int).push(item));
            lemma_order_total_push(items@.take(i as int), item);
        }
        let price: i128 = item.price as i128;
        let quantity: i128 = item.quantity as i128;
        assert(price * quantity == line_total(item));
        let line: i128 = price * quantity;
        low = low + line;
        if low < 0 {
            low = low + 0x1_0000_0000_0000_0000_0000_0000i128;
            high = high - 1;
        } else if low >= 0x1_0000_0000_0000_0000_0000_0000i128 {
            low = low - 0x1_0000_0000_0000_0000_0000_0000i128;
            high = high + 1;
        }
        i = i + 1;
    }
    assert(items@.take(i as int) =~= items@);
    if high == 0 && low <= 0x7fff_ffff_ffff_ffffi128 {
        Some(low as i64)
    } else if high == -1 && low >= 0x1_0000_0000_0000_0000_0000_0000i128
        - 0x8000_0000_0000_0000i128 {
        Some((low - 0x1_0000_0000_0000_0000_0000_0000i128) as i64)
    } else {
        proof {
            let total = order_total(items@);
            if high >= 1 {
                assert(high * limb() >= limb()) by (nonlinear_arith)
                    requires
                        high >= 1,
                        limb() > 0,
                ;
            } else if high <= -2 {
                assert(high * limb() <= -2 * limb()) by (nonlinear_arith)
                    requires
                        high <= -2,
                        limb() > 0,
                ;
            }
        }
        None
    }
}

impl View for Order {
    type V = OrderView;

    open spec fn view(&self) -> OrderView {
        OrderView {
            id: self.id,
            customer_id: self.customer_id,
            items: self.items@,
            total: self.total,
            status: self.status,
            created_at: self.created_at,
            updated_at: self.updated_at,
        }
    }
}

impl OrderView {
    /// A new order: pending, with the amount of its lines as its total and one
    /// time for both of its timestamps.
    pub open spec fn fresh(
        id: EntityId,
        now: Timestamp,
        customer_id: EntityId,
        items: Seq<OrderItem>,
    ) -> OrderView {
        OrderView {
            id: Some(id),
            customer_id,
            items,
            total: order_total(items) as i64,
            status: OrderStatus::Pending,
            created_at: now,
            updated_at: now,
        }
    }

    /// The order moved to another status at the given time. Nothing else
    /// changes.
    pub open spec fn with_status(self, status: OrderStatus, now: Timestamp) -> OrderView {
        OrderView { status, updated_at: now, ..self }
    }

    /// The order under the given identifier. Nothing else changes.
    pub open spec fn with_id(self, id: EntityId) -> OrderView {
        OrderView { id: Some(id), ..self }
    }
}

impl Order {
    /// Builds a new order from an identifier and a time that the caller
    /// obtained.
    pub fn assemble(id: EntityId, now: Timestamp, customer_id: EntityId, items: Vec<OrderItem>) -> (order: Order)
        requires
            amount_fits(order_total(items@)),
        ensures
            order@ == OrderView::fresh(id, now, customer_id, items@),
    {
        let total = match checked_total(&items) {
            Some(total) => total,
            None => 0,
        };
        Order {
            id: Some(id),
            customer_id,
            items,
            total,
            status: OrderStatus::Pending,
            created_at: now,
            updated_at: now,
        }
    }

    /// Builds a new order with a fresh identifier, stamped with the current
    /// time. Whatever identifier and time come back, the order is the one that
    /// [`Order::assemble`] builds from them.
    pub fn new(customer_id: EntityId, items: Vec<OrderItem>) -> (order: Order)
        requires
            amount_fits(order_total(items@)),
        ensures
            order@.id is Some,
            order@ == OrderView::fresh(order@.id->0, order@.created_at, customer_id, items@),
            crate::ident::is_random_id(order@.id->0.value),
            order@.created_at.wf(),
    {
        let now = Timestamp::now();
        let id = EntityId::mint();
        Order::assemble(id, now, customer_id, items)
    }

    /// A copy of the order.
    pub fn duplicate(&self) -> (copy: Order)
        ensures
            copy@ == self@,
    {
        Order {
            id: self.id,
            customer_id: self.customer_id,
            items: copy_items(&self.items),
            total: self.total,
            status: self.status,
            created_at: self.created_at,
            updated_at: self.updated_at,
        }
    }
}

/// A copy of a list of lines.
pub fn copy_items(items: &Vec<OrderItem>) -> (copy: Vec<OrderItem>)
    ensures
        copy@ == items@,
{
    let mut copy: Vec<OrderItem> = Vec::with_capacity(items.len());
    let mut i: usize = 0;
    while i < items.len()
        invariant
            0 <= i <= items.len(),
            copy@ == items@.take(i as int),
        decreases items.len() - i,
    {
        copy.push(items[i]);
        assert(items@.take(i as int + 1) =~= items@.take(i as int).push(items@[i as int]));
        i = i + 1;
    }
    assert(items@.take(i as int) =~= items@);
    copy
}

} // verus!
