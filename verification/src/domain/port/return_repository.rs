//! Port through which the use cases reach stored returns.

use vstd::prelude::*;

use crate::domain::entity::return_model::{
    CreateReturnInput, Return, ReturnView, UpdateReturnStatusInput, return_id_is, return_made_from,
    return_opt_view, return_status_set, return_views,
};
use crate::domain::error::{DomainError, is_some_not_found};
use crate::domain::lookup::{any_match, first_match, is_first_match};

verus! {

/// Storage of returns, seen as a sequence in storage order; refunds are of
/// type `Amount`. An operation may always fail; when the storage is
/// `healthy` it does not fail for reasons of its own.
pub trait ReturnRepository {
    /// The type of the refunds.
    type Amount;

    /// The stored returns, in storage order (unspecified where the implementation does not say).
    open spec fn stored_returns(&self) -> Seq<ReturnView<Self::Amount>> {
        vstd::pervasive::arbitrary()
    }

    /// The storage answers every request (not assumed of a storage that does not say so).
    open spec fn healthy(&self) -> bool {
        false
    }

    /// The stored returns in the order the storage lists them (unspecified where the implementation does not say).
    open spec fn listed_returns(&self) -> Seq<ReturnView<Self::Amount>> {
        vstd::pervasive::arbitrary()
    }

    /// All stored returns, in the order the storage lists them (`listed_returns`).
    fn list(&self) -> (r: Result<Vec<Return<Self::Amount>>, DomainError>)
        ensures
            self.healthy() ==> r is Ok,
            r matches Ok(v) ==> return_views(v@).to_multiset() == self.stored_returns().to_multiset(),
            r matches Ok(v) ==> return_views(v@) == self.listed_returns(),
    ;

    /// The first stored return with the given id.
    fn find_by_id(&self, id: &str) -> (r: Result<Option<Return<Self::Amount>>, DomainError>)
        ensures
            self.healthy() ==> r is Ok,
            r matches Ok(o) ==> return_opt_view(o) == first_match(self.stored_returns(), return_id_is(id@)),
    ;

    /// Stores a new "requested" return opened from `input`.
    fn create(&mut self, input: &CreateReturnInput<Self::Amount>) -> (r: Result<Return<Self::Amount>, DomainError>)
        ensures
            old(self).healthy() ==> r is Ok,
            r matches Ok(x) ==> {
                &&& return_made_from(x@, *input)
                &&& final(self).stored_returns() == old(self).stored_returns().push(x@)
                &&& final(self).healthy() == old(self).healthy()
            },
    ;

    /// Sets the status (and the refund, when given) of the first stored
    /// return with the given id.
    fn update_status(&mut self, id: &str, input: &UpdateReturnStatusInput<Self::Amount>) -> (r: Result<
        Return<Self::Amount>,
        DomainError,
    >)
        ensures
            old(self).healthy() && any_match(old(self).stored_returns(), return_id_is(id@)) ==> r is Ok,
            !any_match(old(self).stored_returns(), return_id_is(id@)) ==> r is Err,
            old(self).healthy() && !any_match(old(self).stored_returns(), return_id_is(id@)) ==> is_some_not_found(r),
            r matches Ok(x) ==> exists|i: int| {
                &&& is_first_match(old(self).stored_returns(), return_id_is(id@), i)
                &&& return_status_set(old(self).stored_returns()[i], x@, *input)
                &&& final(self).stored_returns() == old(self).stored_returns().update(i, x@)
            },
            r is Ok ==> final(self).healthy() == old(self).healthy(),
    ;
}

} // verus!
