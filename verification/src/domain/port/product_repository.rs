//! Port through which the use cases reach stored products.

use vstd::prelude::*;

use crate::domain::entity::product::{
    CreateProductInput, Product, ProductView, UpdateProductInput, product_id_is,
    product_made_from, product_opt_view, product_sku_is, product_status_set, product_updated,
    product_views, product_not_found,
};
use crate::domain::error::{DomainError, is_not_found};
use crate::domain::lookup::{any_match, first_match, is_first_match, without};

verus! {

/// Storage of products.
///
/// The storage is seen as the sequence of its products in storage order. An
/// operation may always fail (the storage is outside the program); when the
/// storage is `healthy` it does not fail for reasons of its own.
pub trait ProductRepository {
    /// The stored products, in storage order (unspecified where the implementation does not say).
    open spec fn stored_products(&self) -> Seq<ProductView> {
        vstd::pervasive::arbitrary()
    }

    /// The storage answers every request (not assumed of a storage that does not say so).
    open spec fn healthy(&self) -> bool {
        false
    }

    /// The stored products in the order the storage lists them (unspecified where the implementation does not say).
    open spec fn listed_products(&self) -> Seq<ProductView> {
        vstd::pervasive::arbitrary()
    }

    /// All stored products, in the order the storage lists them (`listed_products`).
    fn list(&self) -> (r: Result<Vec<Product>, DomainError>)
        ensures
            self.healthy() ==> r is Ok,
            r matches Ok(v) ==> product_views(v@).to_multiset() == self.stored_products().to_multiset(),
            r matches Ok(v) ==> product_views(v@) == self.listed_products(),
    ;

    /// The first stored product with the given id.
    fn find_by_id(&self, id: &str) -> (r: Result<Option<Product>, DomainError>)
        ensures
            self.healthy() ==> r is Ok,
            r matches Ok(o) ==> product_opt_view(o) == first_match(self.stored_products(), product_id_is(id@)),
    ;

    /// The first stored product with the given SKU.
    fn find_by_sku(&self, sku: &str) -> (r: Result<Option<Product>, DomainError>)
        ensures
            self.healthy() ==> r is Ok,
            r matches Ok(o) ==> product_opt_view(o) == first_match(self.stored_products(), product_sku_is(sku@)),
    ;

    /// Stores a new product made from `input`, with status "available".
    fn create(&mut self, input: &CreateProductInput) -> (r: Result<Product, DomainError>)
        ensures
            old(self).healthy() ==> r is Ok,
            r matches Ok(p) ==> {
                &&& product_made_from(p@, *input)
                &&& final(self).stored_products() == old(self).stored_products().push(p@)
                &&& final(self).healthy() == old(self).healthy()
            },
    ;

    /// Applies `input` to the first stored product with the given id.
    fn update(&mut self, id: &str, input: &UpdateProductInput) -> (r: Result<Product, DomainError>)
        ensures
            old(self).healthy() && any_match(old(self).stored_products(), product_id_is(id@)) ==> r is Ok,
            !any_match(old(self).stored_products(), product_id_is(id@)) ==> r is Err,
            r matches Ok(p) ==> exists|i: int| {
                &&& is_first_match(old(self).stored_products(), product_id_is(id@), i)
                &&& product_updated(old(self).stored_products()[i], p@, *input)
                &&& final(self).stored_products() == old(self).stored_products().update(i, p@)
            },
            r is Ok ==> final(self).healthy() == old(self).healthy(),
    ;

    /// Sets the status of the first stored product with the given id.
    fn update_status(&mut self, id: &str, status: &str) -> (r: Result<Product, DomainError>)
        ensures
            old(self).healthy() && any_match(old(self).stored_products(), product_id_is(id@)) ==> r is Ok,
            !any_match(old(self).stored_products(), product_id_is(id@)) ==> r is Err,
            old(self).healthy() && !any_match(old(self).stored_products(), product_id_is(id@)) ==> is_not_found(r, product_not_found(id@)),
            r matches Ok(p) ==> exists|i: int| {
                &&& is_first_match(old(self).stored_products(), product_id_is(id@), i)
                &&& product_status_set(old(self).stored_products()[i], p@, status@)
                &&& final(self).stored_products() == old(self).stored_products().update(i, p@)
            },
            r is Ok ==> final(self).healthy() == old(self).healthy(),
    ;

    /// Removes every stored product with the given id; fails when there is none.
    fn delete(&mut self, id: &str) -> (r: Result<(), DomainError>)
        ensures
            old(self).healthy() && any_match(old(self).stored_products(), product_id_is(id@)) ==> r is Ok,
            !any_match(old(self).stored_products(), product_id_is(id@)) ==> r is Err,
            old(self).healthy() && !any_match(old(self).stored_products(), product_id_is(id@)) ==> is_not_found(r, product_not_found(id@)),
            r is Ok ==> final(self).stored_products() == without(old(self).stored_products(), product_id_is(id@)),
            r is Ok ==> final(self).healthy() == old(self).healthy(),
    ;

    /// Whether a product with the given id is stored.
    fn exists_by_id(&self, id: &str) -> (r: Result<bool, DomainError>)
        ensures
            self.healthy() ==> r is Ok,
            r matches Ok(b) ==> b == any_match(self.stored_products(), product_id_is(id@)),
    ;
}

} // verus!
