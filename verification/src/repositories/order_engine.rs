//! An engine for the relational store that keeps the two tables in memory
//! and answers each step as the schema prescribes.

use crate::clock::Timestamp;
use crate::ident::EntityId;
use crate::repositories::order_tables::{
    has_item, has_order, is_slot, later, lemma_lines_of_push, lemma_position_unique,
    lemma_slot_exists, lemma_slot_unique, lemma_write_keeps_wf, lines_of, lines_of_others,
    order_position, revised, slot, TablesView, Violation,
};
use crate::repositories::relational::{
    row_views, write_views, ItemRow, OrderQuery, OrderReply, OrderRow, OrderWrite,
};
use vstd::prelude::*;
use vstd::string::*;

verus! {

/// The two tables, in memory.
#[derive(Debug, PartialEq, Eq)]
pub struct OrderTables {
    orders: Vec<OrderRow>,
    items: Vec<ItemRow>,
}

impl View for OrderTables {
    type V = TablesView;

    closed spec fn view(&self) -> TablesView {
        TablesView { orders: row_views(self.orders@), items: self.items@ }
    }
}

/// A copy of a list of order rows.
pub fn copy_rows(rows: &Vec<OrderRow>) -> (copy: Vec<OrderRow>)
    ensures
        row_views(copy@) == row_views(rows@),
{
    let mut copy: Vec<OrderRow> = Vec::with_capacity(rows.len());
    let mut i: usize = 0;
    while i < rows.len()
        invariant
            0 <= i <= rows.len(),
            copy.len() == i,
            forall|k: int| 0 <= k < i ==> (#[trigger] copy[k])@ == rows[k]@,
        decreases rows.len() - i,
    {
        copy.push(rows[i].duplicate());
        i = i + 1;
    }
    assert(row_views(copy@) =~= row_views(rows@));
    copy
}

/// A copy of a list of line rows.
pub fn copy_lines(rows: &Vec<ItemRow>) -> (copy: Vec<ItemRow>)
    ensures
        copy@ == rows@,
{
    let mut copy: Vec<ItemRow> = Vec::with_capacity(rows.len());
    let mut i: usize = 0;
    while i < rows.len()
        invariant
            0 <= i <= rows.len(),
            copy@ == rows@.take(i as int),
        decreases rows.len() - i,
    {
        copy.push(rows[i]);
        assert(rows@.take(i as int + 1) =~= rows@.take(i as int).push(rows@[i as int]));
        i = i + 1;
    }
    assert(rows@.take(i as int) =~= rows@);
    copy
}

impl Violation {
    /// The message with which the engine refuses.
    pub fn message_text(&self) -> (text: String)
        ensures
            text@ == self.message(),
    {
        match self {
            Violation::DuplicateOrder => String::from_str(
                "duplicate key value violates unique constraint \"orders_pkey\"",
            ),
            Violation::DuplicateItem => String::from_str(
                "duplicate key value violates unique constraint \"order_items_pkey\"",
            ),
            Violation::MissingOrder => String::from_str(
                "insert on table \"order_items\" violates foreign key constraint \"order_items_order_id_fkey\"",
            ),
        }
    }
}

impl OrderTables {
    /// What the schema guarantees of the contents.
    pub open spec fn wf(&self) -> bool {
        self@.wf()
    }

    /// Two tables without rows.
    pub fn new() -> (tables: OrderTables)
        ensures
            tables@ == TablesView::empty(),
            tables.wf(),
    {
        let tables = OrderTables { orders: Vec::new(), items: Vec::new() };
        assert(tables@.orders =~= Seq::empty());
        tables
    }

    /// A copy of the tables.
    pub fn duplicate(&self) -> (copy: OrderTables)
        ensures
            copy@ == self@,
    {
        OrderTables { orders: copy_rows(&self.orders), items: copy_lines(&self.items) }
    }

    /// Where the order row with the identifier stands, if there is one.
    fn position(&self, id: EntityId) -> (found: Option<usize>)
        ensures
            found is Some <==> has_order(self@.orders, id),
            found matches Some(p) ==> p < self.orders.len() && self.orders[p as int].id == id,
    {
        let mut i: usize = 0;
        while i < self.orders.len()
            invariant
                0 <= i <= self.orders.len(),
                forall|k: int| 0 <= k < i ==> (#[trigger] self.orders[k]).id != id,
            decreases self.orders.len() - i,
        {
            if self.orders[i].id == id {
                assert(self@.orders[i as int].id == id);
                return Some(i);
            }
            i = i + 1;
        }
        assert(!has_order(self@.orders, id)) by {
            if has_order(self@.orders, id) {
                let q = order_position(self@.orders, id);
                assert(self@.orders[q].id == self.orders[q].id);
            }
        }
        None
    }

    /// Whether some line row has the identifier.
    fn holds_item(&self, id: EntityId) -> (found: bool)
        ensures
            found == has_item(self@.items, id),
    {
        let mut i: usize = 0;
        while i < self.items.len()
            invariant
                0 <= i <= self.items.len(),
                forall|k: int| 0 <= k < i ==> (#[trigger] self.items[k]).id != id,
            decreases self.items.len() - i,
        {
            if self.items[i].id == id {
                return true;
            }
            i = i + 1;
        }
        false
    }

    /// Where a row created at the given time belongs.
    fn slot_for(&self, at: Timestamp) -> (p: usize)
        ensures
            p <= self.orders.len(),
            p == slot(self@.orders, at),
    {
        let mut i: usize = 0;
        while i < self.orders.len() && (self.orders[i].created_at.seconds > at.seconds || (
        self.orders[i].created_at.seconds == at.seconds && self.orders[i].created_at.nanos
            > at.nanos))
            invariant
                0 <= i <= self.orders.len(),
                forall|k: int| 0 <= k < i ==> later((#[trigger] self@.orders[k]).created_at, at),
            decreases self.orders.len() - i,
        {
            i = i + 1;
        }
        proof {
            assert(i < self.orders.len() ==> self@.orders[i as int].created_at
                == self.orders[i as int].created_at);
            assert(is_slot(self@.orders, at, i as int));
            let p = lemma_slot_exists(self@.orders, at, 0);
            lemma_slot_unique(self@.orders, at, i as int, p);
        }
        i
    }

    /// The order row with the identifier, if there is one.
    pub fn select_order(&self, id: EntityId) -> (row: Option<OrderRow>)
        requires
            self.wf(),
        ensures
            match row {
                Some(row) => self@.order(id) == Some(row@),
                None => self@.order(id) is None,
            },
    {
        match self.position(id) {
            Some(p) => {
                proof {
                    assert(self@.orders[p as int] == self.orders[p as int]@);
                    lemma_position_unique(self@.orders, id, p as int);
                }
                Some(self.orders[p].duplicate())
            },
            None => None,
        }
    }

    /// Every order row, newest first.
    pub fn select_orders(&self) -> (rows: Vec<OrderRow>)
        ensures
            row_views(rows@) == self@.orders,
    {
        copy_rows(&self.orders)
    }

    /// The line rows of the order with the identifier.
    pub fn select_items(&self, order_id: EntityId) -> (rows: Vec<ItemRow>)
        ensures
            rows@ == self@.lines(order_id),
    {
        let mut rows: Vec<ItemRow> = Vec::new();
        let mut i: usize = 0;
        while i < self.items.len()
            invariant
                0 <= i <= self.items.len(),
                rows@ == lines_of(self.items@.take(i as int), order_id),
            decreases self.items.len() - i,
        {
            let row = self.items[i];
            proof {
                assert(self.items@.take(i as int + 1) =~= self.items@.take(i as int).push(row));
                lemma_lines_of_push(self.items@.take(i as int), row, order_id);
            }
            if row.order_id == order_id {
                rows.push(row);
            }
            i = i + 1;
        }
        assert(self.items@.take(i as int) =~= self.items@);
        rows
    }

    /// Removes the line rows of the order with the identifier.
    fn drop_items(&mut self, order_id: EntityId)
        ensures
            final(self)@.orders == old(self)@.orders,
            final(self)@.items == lines_of_others(old(self)@.items, order_id),
    {
        let mut kept: Vec<ItemRow> = Vec::new();
        let mut i: usize = 0;
        while i < self.items.len()
            invariant
                0 <= i <= self.items.len(),
                kept@ == lines_of_others(self.items@.take(i as int), order_id),
            decreases self.items.len() - i,
        {
            let row = self.items[i];
            proof {
                assert(self.items@.take(i as int + 1) =~= self.items@.take(i as int).push(row));
                lemma_lines_of_push(self.items@.take(i as int), row, order_id);
            }
            if row.order_id != order_id {
                kept.push(row);
            }
            i = i + 1;
        }
        assert(self.items@.take(i as int) =~= self.items@);
        self.items = kept;
    }

    /// Carries out one statement, or refuses it and changes nothing.
    pub fn write(&mut self, statement: &OrderWrite) -> (outcome: Result<(), Violation>)
        requires
            old(self).wf(),
        ensures
            match old(self)@.write(statement@) {
                Ok(after) => outcome is Ok && final(self)@ == after,
                Err(violation) => outcome == Err::<(), Violation>(violation) && final(self)@ == old(
                    self,
                )@,
            },
            final(self).wf(),
    {
        proof {
            if old(self)@.write(statement@) is Ok {
                lemma_write_keeps_wf(old(self)@, statement@);
            }
        }
        match statement {
            OrderWrite::InsertOrder(row) => {
                if self.position(row.id).is_some() {
                    return Err(Violation::DuplicateOrder);
                }
                let p = self.slot_for(row.created_at);
                self.orders.insert(p, row.duplicate());
                assert(self@.orders =~= old(self)@.orders.insert(p as int, row@));
                Ok(())
            },
            OrderWrite::InsertItem(row) => {
                if self.holds_item(row.id) {
                    return Err(Violation::DuplicateItem);
                }
                if self.position(row.order_id).is_none() {
                    return Err(Violation::MissingOrder);
                }
                self.items.push(*row);
                Ok(())
            },
            OrderWrite::UpdateOrder { id, total, status, updated_at } => {
                match self.position(*id) {
                    Some(p) => {
                        proof {
                            assert(self@.orders[p as int] == self.orders[p as int]@);
                            lemma_position_unique(self@.orders, *id, p as int);
                        }
                        let current = &self.orders[p];
                        let next = OrderRow {
                            id: current.id,
                            customer_id: current.customer_id,
                            total: *total,
                            status: status.clone(),
                            created_at: current.created_at,
                            updated_at: *updated_at,
                        };
                        self.orders[p] = next;
                        assert(self@.orders =~= old(self)@.orders.update(
                            p as int,
                            revised(old(self)@.orders[p as int], *total, status@, *updated_at),
                        ));
                    },
                    None => {},
                }
                Ok(())
            },
            OrderWrite::DeleteItems(id) => {
                self.drop_items(*id);
                Ok(())
            },
            OrderWrite::DeleteOrder(id) => {
                match self.position(*id) {
                    Some(p) => {
                        proof {
                            assert(self@.orders[p as int] == self.orders[p as int]@);
                            lemma_position_unique(self@.orders, *id, p as int);
                        }
                        self.orders.remove(p);
                        assert(self@.orders =~= old(self)@.orders.remove(p as int));
                        self.drop_items(*id);
                    },
                    None => {},
                }
                Ok(())
            },
        }
    }

    /// Carries out the statements in order as one transaction: all of them,
    /// or none where the engine refuses one.
    pub fn transact(&mut self, statements: &Vec<OrderWrite>) -> (outcome: Result<(), Violation>)
        requires
            old(self).wf(),
        ensures
            match old(self)@.write_all(write_views(statements@)) {
                Ok(after) => outcome is Ok && final(self)@ == after,
                Err(violation) => outcome == Err::<(), Violation>(violation) && final(self)@ == old(
                    self,
                )@,
            },
            final(self).wf(),
    {
        let mut work = self.duplicate();
        let ghost all = write_views(statements@);
        let mut i: usize = 0;
        assert(all.skip(0) =~= all);
        while i < statements.len()
            invariant
                0 <= i <= statements.len(),
                all == write_views(statements@),
                work.wf(),
                self.wf(),
                *self == *old(self),
                old(self)@.write_all(all) == work@.write_all(all.skip(i as int)),
            decreases statements.len() - i,
        {
            proof {
                assert(all.skip(i as int).first() == statements[i as int]@);
                assert(all.skip(i as int).drop_first() =~= all.skip(i as int + 1));
            }
            match work.write(&statements[i]) {
                Ok(()) => {},
                Err(violation) => {
                    return Err(violation);
                },
            }
            i = i + 1;
        }
        *self = work;
        Ok(())
    }

    /// Answers a step that only reads. A transaction gets no answer here.
    pub fn read(&self, query: &OrderQuery) -> (reply: Option<OrderReply>)
        requires
            self.wf(),
        ensures
            match reply {
                Some(reply) => !(query@ is Transaction) && reply@ == self@.answer(query@).1,
                None => query@ is Transaction,
            },
    {
        match query {
            OrderQuery::SelectOrder(id) => Some(OrderReply::Order(self.select_order(*id))),
            OrderQuery::SelectOrders => Some(OrderReply::Orders(self.select_orders())),
            OrderQuery::SelectItems(id) => Some(OrderReply::Items(self.select_items(*id))),
            OrderQuery::Transaction(_) => None,
        }
    }

    /// Answers one step of a store.
    pub fn answer(&mut self, query: &OrderQuery) -> (reply: OrderReply)
        requires
            old(self).wf(),
        ensures
            (final(self)@, reply@) == old(self)@.answer(query@),
            final(self).wf(),
    {
        match query {
            OrderQuery::SelectOrder(id) => OrderReply::Order(self.select_order(*id)),
            OrderQuery::SelectOrders => OrderReply::Orders(self.select_orders()),
            OrderQuery::SelectItems(id) => OrderReply::Items(self.select_items(*id)),
            OrderQuery::Transaction(statements) => match self.transact(statements) {
                Ok(()) => OrderReply::Written,
                Err(violation) => OrderReply::Failed(violation.message_text()),
            },
        }
    }
}

} // verus!
