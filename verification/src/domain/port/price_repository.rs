//! Port through which the use cases reach stored prices.

use vstd::prelude::*;

use crate::domain::entity::price::{
    CreatePriceInput, Price, PriceView, UpdatePriceInput, price_id_is, price_made_from, price_opt_view,
    price_updated, price_views, prices_of, price_not_found,
};
use crate::domain::error::{DomainError, is_not_found};
use crate::domain::lookup::{any_match, first_match, first_match_index, is_first_match, without};

verus! {

/// Storage of prices, seen as a sequence in storage order; amounts are of
/// type `Amount`. An operation may always fail; when the storage is
/// `healthy` it does not fail for reasons of its own.
pub trait PriceRepository {
    /// The type of the amounts.
    type Amount;

    /// The stored prices, in storage order (unspecified where the implementation does not say).
    open spec fn stored_prices(&self) -> Seq<PriceView<Self::Amount>> {
        vstd::pervasive::arbitrary()
    }

    /// The storage answers every request (not assumed of a storage that does not say so).
    open spec fn healthy(&self) -> bool {
        false
    }

    /// The stored prices of the product (in an order the storage chooses).
    fn list_by_product(&self, product_id: &str) -> (r: Result<Vec<Price<Self::Amount>>, DomainError>)
        ensures
            self.healthy() ==> r is Ok,
            r matches Ok(v) ==> price_views(v@).to_multiset() == prices_of(self.stored_prices(), product_id@).to_multiset(),
    ;

    /// The first stored price with the given id.
    fn find_by_id(&self, id: &str) -> (r: Result<Option<Price<Self::Amount>>, DomainError>)
        ensures
            self.healthy() ==> r is Ok,
            r matches Ok(o) ==> price_opt_view(o) == first_match(self.stored_prices(), price_id_is(id@)),
    ;

    /// Stores a new price of the product, set from `input`.
    fn create(&mut self, product_id: &str, input: &CreatePriceInput<Self::Amount>) -> (r: Result<
        Price<Self::Amount>,
        DomainError,
    >)
        ensures
            old(self).healthy() ==> r is Ok,
            r matches Ok(p) ==> {
                &&& price_made_from(p@, product_id@, *input)
                &&& final(self).stored_prices() == old(self).stored_prices().push(p@)
                &&& final(self).healthy() == old(self).healthy()
            },
    ;

    /// Applies `input` to the first stored price with the given id.
    fn update(&mut self, id: &str, input: &UpdatePriceInput<Self::Amount>) -> (r: Result<
        Price<Self::Amount>,
        DomainError,
    >)
        ensures
            old(self).healthy() && any_match(old(self).stored_prices(), price_id_is(id@)) ==> r is Ok,
            !any_match(old(self).stored_prices(), price_id_is(id@)) ==> r is Err,
            r matches Ok(p) ==> {
                let i = first_match_index(old(self).stored_prices(), price_id_is(id@));
                &&& is_first_match(old(self).stored_prices(), price_id_is(id@), i)
                &&& price_updated(old(self).stored_prices()[i], p@, *input)
                &&& final(self).stored_prices() == old(self).stored_prices().update(i, p@)
            },
            r is Ok ==> final(self).healthy() == old(self).healthy(),
    ;

    /// Removes every stored price with the given id; fails when there is none.
    fn delete(&mut self, id: &str) -> (r: Result<(), DomainError>)
        ensures
            old(self).healthy() && any_match(old(self).stored_prices(), price_id_is(id@)) ==> r is Ok,
            !any_match(old(self).stored_prices(), price_id_is(id@)) ==> r is Err,
            old(self).healthy() && !any_match(old(self).stored_prices(), price_id_is(id@)) ==> is_not_found(r, price_not_found(id@)),
            r is Ok ==> final(self).stored_prices() == without(old(self).stored_prices(), price_id_is(id@)),
            r is Ok ==> final(self).healthy() == old(self).healthy(),
    ;
}

} // verus!
