//! Port through which the use cases reach stock records and movements.

use vstd::prelude::*;

use crate::domain::entity::stock::{
    CreateStockInput, CreateStockMovementInput, LowStockProduct, Stock, StockMovement,
    StockMovementView, StockView, insufficient_stock, movement_made_from, movement_views,
    LowStockProductView, ascending_by_quantity, low_stock_reported, low_stock_views, quantity_of, record_ensured, quantity_set, stock_made_from, stock_of, stock_opt_view,
};
use crate::domain::error::{DomainError, is_bad_request};
use crate::domain::lookup::{any_match, first_match, is_first_match};

verus! {

/// Storage of stock records and stock movements.
///
/// Records and movements are seen as sequences in storage order. An
/// operation may always fail; when the storage is `healthy` it does not fail
/// for reasons of its own.
pub trait StockRepository {
    /// The stored stock records, in storage order (unspecified where the implementation does not say).
    open spec fn stored_stocks(&self) -> Seq<StockView> {
        vstd::pervasive::arbitrary()
    }

    /// The stored movements, in storage order (unspecified where the implementation does not say).
    open spec fn stored_movements(&self) -> Seq<StockMovementView> {
        vstd::pervasive::arbitrary()
    }

    /// The low-stock products the storage reports (unspecified where the implementation does not say).
    open spec fn low_stock_rows(&self) -> Seq<LowStockProductView> {
        vstd::pervasive::arbitrary()
    }

    /// The storage answers every request (not assumed of a storage that does not say so).
    open spec fn healthy(&self) -> bool {
        false
    }

    /// The first stock record of the given product.
    fn find_by_product(&self, product_id: &str) -> (r: Result<Option<Stock>, DomainError>)
        ensures
            self.healthy() ==> r is Ok,
            r matches Ok(o) ==> stock_opt_view(o) == first_match(self.stored_stocks(), stock_of(product_id@)),
    ;

    /// Stores a new stock record made from `input`.
    fn create(&mut self, input: &CreateStockInput) -> (r: Result<Stock, DomainError>)
        ensures
            old(self).healthy() ==> r is Ok,
            r matches Ok(s) ==> {
                &&& stock_made_from(s@, *input)
                &&& final(self).stored_stocks() == old(self).stored_stocks().push(s@)
                &&& final(self).stored_movements() == old(self).stored_movements()
                &&& final(self).healthy() == old(self).healthy()
            },
    ;

    /// Sets the quantity of the product's stock record. Superseded by
    /// `atomic_increment` and `atomic_decrement`.
    fn update_quantity(&mut self, product_id: &str, quantity: i32) -> (r: Result<(), DomainError>)
        ensures
            old(self).healthy() && any_match(old(self).stored_stocks(), stock_of(product_id@)) ==> r is Ok,
            r is Ok ==> {
                &&& any_match(old(self).stored_stocks(), stock_of(product_id@))
                    ==> quantity_set(old(self).stored_stocks(), final(self).stored_stocks(), product_id@, quantity)
                &&& !any_match(old(self).stored_stocks(), stock_of(product_id@))
                    ==> final(self).stored_stocks() == old(self).stored_stocks()
                &&& final(self).stored_movements() == old(self).stored_movements()
                &&& final(self).healthy() == old(self).healthy()
            },
    ;

    /// The quantity in stock of the product; a record with quantity 0 is
    /// added first when the product has none.
    fn create_or_get(&mut self, product_id: &str) -> (r: Result<i32, DomainError>)
        ensures
            old(self).healthy() ==> r is Ok,
            r matches Ok(q) ==> {
                &&& q == quantity_of(old(self).stored_stocks(), product_id@)
                &&& any_match(old(self).stored_stocks(), stock_of(product_id@))
                    ==> final(self).stored_stocks() == old(self).stored_stocks()
                &&& !any_match(old(self).stored_stocks(), stock_of(product_id@))
                    ==> quantity_set(old(self).stored_stocks(), final(self).stored_stocks(), product_id@, 0)
                &&& final(self).stored_movements() == old(self).stored_movements()
                &&& final(self).healthy() == old(self).healthy()
            },
    ;

    /// Records a movement made from `input`; the stock records are not changed.
    fn create_movement(&mut self, input: &CreateStockMovementInput) -> (r: Result<StockMovement, DomainError>)
        ensures
            old(self).healthy() ==> r is Ok,
            r matches Ok(m) ==> {
                &&& movement_made_from(m@, *input)
                &&& final(self).stored_movements() == old(self).stored_movements().push(m@)
                &&& final(self).stored_stocks() == old(self).stored_stocks()
                &&& final(self).healthy() == old(self).healthy()
            },
    ;

    /// The stored movements in the order the storage lists them (unspecified where the implementation does not say).
    open spec fn listed_movements(&self) -> Seq<StockMovementView> {
        vstd::pervasive::arbitrary()
    }

    /// All stored movements, in the order the storage lists them (`listed_movements`).
    fn list_movements(&self) -> (r: Result<Vec<StockMovement>, DomainError>)
        ensures
            self.healthy() ==> r is Ok,
            r matches Ok(v) ==> movement_views(v@).to_multiset() == self.stored_movements().to_multiset(),
            r matches Ok(v) ==> movement_views(v@) == self.listed_movements(),
    ;

    /// Products whose stock is below their minimum, in ascending order
    /// of quantity; each one reported with the quantities of one of its stock
    /// records. The list is `low_stock_rows`.
    fn list_low_stock(&self) -> (r: Result<Vec<LowStockProduct>, DomainError>)
        ensures
            self.healthy() ==> r is Ok,
            r matches Ok(v) ==> {
                &&& low_stock_views(v@) == self.low_stock_rows()
                &&& low_stock_reported(self.stored_stocks(), v@)
                &&& ascending_by_quantity(low_stock_views(v@))
            },
    ;

    /// Adds `delta` to the product's stock in one step and returns the new
    /// quantity (a product without a record starts from 0).
    fn atomic_increment(&mut self, product_id: &str, delta: i32) -> (r: Result<i32, DomainError>)
        requires
            i32::MIN <= quantity_of(old(self).stored_stocks(), product_id@) + delta <= i32::MAX,
        ensures
            old(self).healthy() ==> r is Ok,
            r matches Ok(q) ==> {
                &&& q == quantity_of(old(self).stored_stocks(), product_id@) + delta
                &&& quantity_set(old(self).stored_stocks(), final(self).stored_stocks(), product_id@, q)
                &&& final(self).stored_movements() == old(self).stored_movements()
                &&& final(self).healthy() == old(self).healthy()
            },
    ;

    /// Takes `delta` from the product's stock in one step, when there is
    /// enough of it, and returns the new quantity (a product without a record
    /// has 0); refused with `BadRequest` otherwise. A refusal leaves the
    /// quantities and the movements as they were; a missing record of the
    /// product is added with quantity 0 (by a storage that fails for reasons
    /// of its own, possibly not).
    fn atomic_decrement(&mut self, product_id: &str, delta: i32) -> (r: Result<i32, DomainError>)
        requires
            quantity_of(old(self).stored_stocks(), product_id@) >= delta
                ==> quantity_of(old(self).stored_stocks(), product_id@) - delta <= i32::MAX,
        ensures
            old(self).healthy() && quantity_of(old(self).stored_stocks(), product_id@) >= delta ==> r is Ok,
            quantity_of(old(self).stored_stocks(), product_id@) < delta ==> r is Err,
            old(self).healthy() && quantity_of(old(self).stored_stocks(), product_id@) < delta ==> is_bad_request(
                r,
                insufficient_stock(quantity_of(old(self).stored_stocks(), product_id@), delta as int),
            ),
            r is Err ==> {
                &&& record_ensured(old(self).stored_stocks(), final(self).stored_stocks(), product_id@)
                    || final(self).stored_stocks() == old(self).stored_stocks()
                &&& final(self).stored_movements() == old(self).stored_movements()
                &&& final(self).healthy() == old(self).healthy()
            },
            old(self).healthy() && r is Err ==> record_ensured(
                old(self).stored_stocks(),
                final(self).stored_stocks(),
                product_id@,
            ),
            r matches Ok(q) ==> {
                &&& q == quantity_of(old(self).stored_stocks(), product_id@) - delta
                &&& quantity_set(old(self).stored_stocks(), final(self).stored_stocks(), product_id@, q)
                &&& final(self).stored_movements() == old(self).stored_movements()
                &&& final(self).healthy() == old(self).healthy()
            },
    ;
}

} // verus!
