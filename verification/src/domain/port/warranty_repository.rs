//! Port through which the use cases reach stored warranties.

use vstd::prelude::*;

use crate::domain::entity::warranty::{
    CreateWarrantyInput, Warranty, WarrantyView, warranty_id_is, warranty_made_from,
    warranty_opt_view, warranty_status_set, warranty_views, warranty_not_found,
};
use crate::domain::error::{DomainError, is_not_found};
use crate::domain::lookup::{any_match, first_match, is_first_match};

verus! {

/// Storage of warranties, seen as a sequence in storage order. An operation
/// may always fail; when the storage is `healthy` it does not fail for
/// reasons of its own.
pub trait WarrantyRepository {
    /// The stored warranties, in storage order (unspecified where the implementation does not say).
    open spec fn stored_warranties(&self) -> Seq<WarrantyView> {
        vstd::pervasive::arbitrary()
    }

    /// The storage answers every request (not assumed of a storage that does not say so).
    open spec fn healthy(&self) -> bool {
        false
    }

    /// The stored warranties in the order the storage lists them (unspecified where the implementation does not say).
    open spec fn listed_warranties(&self) -> Seq<WarrantyView> {
        vstd::pervasive::arbitrary()
    }

    /// All stored warranties, in the order the storage lists them (`listed_warranties`).
    fn list(&self) -> (r: Result<Vec<Warranty>, DomainError>)
        ensures
            self.healthy() ==> r is Ok,
            r matches Ok(v) ==> warranty_views(v@).to_multiset() == self.stored_warranties().to_multiset(),
            r matches Ok(v) ==> warranty_views(v@) == self.listed_warranties(),
    ;

    /// The first stored warranty with the given id.
    fn find_by_id(&self, id: &str) -> (r: Result<Option<Warranty>, DomainError>)
        ensures
            self.healthy() ==> r is Ok,
            r matches Ok(o) ==> warranty_opt_view(o) == first_match(self.stored_warranties(), warranty_id_is(id@)),
    ;

    /// Stores a new active warranty made from `input`, expiring at `expires_at`.
    fn create(&mut self, input: &CreateWarrantyInput, expires_at: &str) -> (r: Result<Warranty, DomainError>)
        ensures
            old(self).healthy() ==> r is Ok,
            r matches Ok(w) ==> {
                &&& warranty_made_from(w@, *input, expires_at@)
                &&& final(self).stored_warranties() == old(self).stored_warranties().push(w@)
                &&& final(self).healthy() == old(self).healthy()
            },
    ;

    /// Sets the status of the first stored warranty with the given id.
    fn update_status(&mut self, id: &str, status: &str) -> (r: Result<Warranty, DomainError>)
        ensures
            old(self).healthy() && any_match(old(self).stored_warranties(), warranty_id_is(id@)) ==> r is Ok,
            !any_match(old(self).stored_warranties(), warranty_id_is(id@)) ==> r is Err,
            old(self).healthy() && !any_match(old(self).stored_warranties(), warranty_id_is(id@)) ==> is_not_found(r, warranty_not_found(id@)),
            r matches Ok(w) ==> exists|i: int| {
                &&& is_first_match(old(self).stored_warranties(), warranty_id_is(id@), i)
                &&& warranty_status_set(old(self).stored_warranties()[i], w@, status@)
                &&& final(self).stored_warranties() == old(self).stored_warranties().update(i, w@)
            },
            r is Ok ==> final(self).healthy() == old(self).healthy(),
    ;
}

} // verus!
