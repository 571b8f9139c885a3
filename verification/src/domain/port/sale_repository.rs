//! Port through which the use cases record sales.

use vstd::prelude::*;

use crate::domain::entity::sale::{CreateSaleInput, Sale, SaleView, sale_made_from};
use crate::domain::error::DomainError;

verus! {

/// Storage of sales, seen as a sequence in storage order; prices are of type
/// `Amount`. An operation may always fail; when the storage is `healthy` it
/// does not fail for reasons of its own.
pub trait SaleRepository {
    /// The type of the prices.
    type Amount;

    /// The stored sales, in storage order (unspecified where the implementation does not say).
    open spec fn stored_sales(&self) -> Seq<SaleView<Self::Amount>> {
        vstd::pervasive::arbitrary()
    }

    /// The storage answers every request (not assumed of a storage that does not say so).
    open spec fn healthy(&self) -> bool {
        false
    }

    /// Stores a sale recorded from `input`, priced `total_price` in all.
    fn create(&mut self, input: &CreateSaleInput<Self::Amount>, total_price: Self::Amount) -> (r: Result<
        Sale<Self::Amount>,
        DomainError,
    >)
        ensures
            old(self).healthy() ==> r is Ok,
            r matches Ok(s) ==> {
                &&& sale_made_from(s@, *input, total_price)
                &&& final(self).stored_sales() == old(self).stored_sales().push(s@)
                &&& final(self).healthy() == old(self).healthy()
            },
    ;
}

} // verus!
