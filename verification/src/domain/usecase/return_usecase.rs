//! Use cases on returns of products: listing, lookup, opening a return for
//! an existing product, and status change.

use vstd::prelude::*;

use crate::domain::entity::product::{product_id_is, product_not_found, product_not_found_message};
use crate::domain::entity::return_model::{
    CreateReturnInput, Return, ReturnView, UpdateReturnStatusInput, VALID_RETURN_STATUSES, return_id_is, return_made_from,
    return_not_found, return_not_found_message, return_status_set, return_statuses, return_views,
};
use crate::domain::error::{DomainError, is_bad_request, is_not_found, is_some_not_found};
use crate::domain::lookup::{any_match, first_match, is_first_match, lemma_first_match_some_iff};
use crate::domain::port::product_repository::ProductRepository;
use crate::domain::port::return_repository::ReturnRepository;
use crate::domain::port::mocks::MockReturnRepository;
use crate::domain::text::{is_one_of, one_of};
use crate::domain::usecase::product_usecase::{invalid_status, invalid_status_message};

verus! {

/// Accepts a status a return may be given; refuses any other with
/// `BadRequest` naming the valid ones.
pub fn check_return_status(status: &str) -> (r: Result<(), DomainError>)
    ensures
        one_of(status@, return_statuses()) ==> r is Ok,
        !one_of(status@, return_statuses()) ==> is_bad_request(r, invalid_status(return_statuses())),
{
    let statuses: &[&str] = &VALID_RETURN_STATUSES;
    proof {
        reveal_strlit("requested");
        reveal_strlit("approved");
        reveal_strlit("rejected");
        reveal_strlit("completed");
        assert(statuses@ == return_statuses());
    }
    if !is_one_of(status, statuses) {
        return Err(DomainError::BadRequest(invalid_status_message(statuses)));
    }
    Ok(())
}

/// Every stored return has one of the valid statuses.
pub open spec fn return_statuses_valid<A>(s: Seq<ReturnView<A>>) -> bool {
    forall|i: int| 0 <= i < s.len() ==> one_of((#[trigger] s[i]).status, return_statuses())
}

/// Law: opening a return keeps every stored status valid (a new return is
/// "requested").
pub proof fn law_opening_keeps_return_statuses_valid<A>(
    before: Seq<ReturnView<A>>,
    x: ReturnView<A>,
    input: CreateReturnInput<A>,
)
    requires
        return_statuses_valid(before),
        return_made_from(x, input),
    ensures
        return_statuses_valid(before.push(x)),
{
    reveal_strlit("requested");
    assert(return_statuses()[0]@ == x.status);
    assert forall|i: int| 0 <= i < before.push(x).len() implies one_of(
        (#[trigger] before.push(x)[i]).status,
        return_statuses(),
    ) by {
        if i < before.len() {
            assert(before.push(x)[i] == before[i]);
        }
    }
}

/// Law: a status change that `update_status` accepts keeps every stored
/// status valid.
pub proof fn law_status_change_keeps_return_statuses_valid<A>(
    before: Seq<ReturnView<A>>,
    i: int,
    x: ReturnView<A>,
    input: UpdateReturnStatusInput<A>,
)
    requires
        return_statuses_valid(before),
        0 <= i < before.len(),
        one_of(input.status@, return_statuses()),
        return_status_set(before[i], x, input),
    ensures
        return_statuses_valid(before.update(i, x)),
{
    assert forall|k: int| 0 <= k < before.update(i, x).len() implies one_of(
        (#[trigger] before.update(i, x)[k]).status,
        return_statuses(),
    ) by {
        if k != i {
            assert(before.update(i, x)[k] == before[k]);
        }
    }
}

/// Operations on returns; products are looked up to open one.
pub struct ReturnUseCase<R: ReturnRepository, P: ProductRepository> {
    repo: R,
    product_repo: P,
}

impl<R: ReturnRepository, P: ProductRepository> ReturnUseCase<R, P> {
    /// The return storage the use case works on.
    pub closed spec fn repository(&self) -> R {
        self.repo
    }

    /// The product storage the use case consults.
    pub closed spec fn product_repository(&self) -> P {
        self.product_repo
    }

    pub fn new(repo: R, product_repo: P) -> (r: Self)
        ensures
            r.repository() == repo,
            r.product_repository() == product_repo,
    {
        ReturnUseCase { repo, product_repo }
    }

    /// All stored returns.
    pub fn list(&self) -> (r: Result<Vec<Return<R::Amount>>, DomainError>)
        ensures
            self.repository().healthy() ==> r is Ok,
            r matches Ok(v) ==> return_views(v@).to_multiset() == self.repository().stored_returns().to_multiset(),
            r matches Ok(v) ==> return_views(v@) == self.repository().listed_returns(),
    {
        self.repo.list()
    }

    /// The return with the given id; `NotFound` when there is none.
    pub fn get(&self, id: &str) -> (r: Result<Return<R::Amount>, DomainError>)
        ensures
            r matches Ok(x) ==> Some(x@) == first_match(self.repository().stored_returns(), return_id_is(id@)),
            !any_match(self.repository().stored_returns(), return_id_is(id@)) ==> r is Err,
            self.repository().healthy() ==> {
                &&& any_match(self.repository().stored_returns(), return_id_is(id@)) ==> r is Ok
                &&& !any_match(self.repository().stored_returns(), return_id_is(id@))
                    ==> is_some_not_found(r)
            },
    {
        proof {
            lemma_first_match_some_iff(self.repo.stored_returns(), return_id_is(id@));
        }
        match self.repo.find_by_id(id)? {
            Some(x) => Ok(x),
            None => Err(DomainError::NotFound(return_not_found_message(id))),
        }
    }

    /// Opens a "requested" return for an existing product; `NotFound` when
    /// there is no such product.
    pub fn create(&mut self, input: CreateReturnInput<R::Amount>) -> (r: Result<Return<R::Amount>, DomainError>)
        ensures
            !any_match(old(self).product_repository().stored_products(), product_id_is(input.product_id@)) ==> {
                &&& r is Err
                &&& final(self).repository() == old(self).repository()
            },
            old(self).product_repository().healthy() ==> {
                &&& !any_match(old(self).product_repository().stored_products(), product_id_is(input.product_id@))
                    ==> is_not_found(r, product_not_found(input.product_id@))
                &&& any_match(old(self).product_repository().stored_products(), product_id_is(input.product_id@))
                    && old(self).repository().healthy() ==> r is Ok
            },
            r matches Ok(x) ==> {
                &&& any_match(old(self).product_repository().stored_products(), product_id_is(input.product_id@))
                &&& return_made_from(x@, input)
                &&& final(self).repository().stored_returns() == old(self).repository().stored_returns().push(x@)
            },
            final(self).product_repository() == old(self).product_repository(),
    {
        if !self.product_repo.exists_by_id(input.product_id.as_str())? {
            return Err(DomainError::NotFound(product_not_found_message(input.product_id.as_str())));
        }
        self.repo.create(&input)
    }

    /// Sets the status (and, when given, the refund) of the return with the
    /// given id; the status must be one of the valid ones.
    pub fn update_status(&mut self, id: &str, input: UpdateReturnStatusInput<R::Amount>) -> (r: Result<
        Return<R::Amount>,
        DomainError,
    >)
        ensures
            !one_of(input.status@, return_statuses()) ==> {
                &&& is_bad_request(r, invalid_status(return_statuses()))
                &&& final(self).repository() == old(self).repository()
            },
            one_of(input.status@, return_statuses()) ==> {
                &&& old(self).repository().healthy() && any_match(old(self).repository().stored_returns(), return_id_is(id@))
                    ==> r is Ok
                &&& !any_match(old(self).repository().stored_returns(), return_id_is(id@)) ==> r is Err
                &&& old(self).repository().healthy() && !any_match(old(self).repository().stored_returns(), return_id_is(id@))
                    ==> is_some_not_found(r)
            },
            r matches Ok(x) ==> exists|i: int| {
                &&& is_first_match(old(self).repository().stored_returns(), return_id_is(id@), i)
                &&& return_status_set(old(self).repository().stored_returns()[i], x@, input)
                &&& final(self).repository().stored_returns() == old(self).repository().stored_returns().update(i, x@)
            },
            final(self).product_repository() == old(self).product_repository(),
    {
        check_return_status(input.status.as_str())?;
        self.repo.update_status(id, &input)
    }
}

/// Law: `list` gives the returns exactly as the storage lists them: as
/// many, and each at its place, so none is left out, added or moved.
pub proof fn law_list_keeps_the_storage_order<R: ReturnRepository, P: ProductRepository>(
    uc: ReturnUseCase<R, P>,
    r: Result<Vec<Return<R::Amount>>, DomainError>,
    i: int,
)
    requires
        call_ensures(ReturnUseCase::<R, P>::list, (&uc,), r),
    ensures
        r matches Ok(v) ==> v@.len() == uc.repository().listed_returns().len(),
        r matches Ok(v) ==> (0 <= i < v@.len() ==> v@[i]@ == uc.repository().listed_returns()[i]),
{
    if r is Ok {
        let v = r->Ok_0;
        assert(return_views(v@).len() == v@.len());
        if 0 <= i < v@.len() {
            assert(return_views(v@)[i] == v@[i]@);
        }
    }
}

/// Law: with the in-memory storage, `list` gives the returns in the order
/// they are stored (opening order), each at its place.
pub proof fn law_in_memory_list_is_the_stored_order<A: Copy, P: ProductRepository>(
    uc: ReturnUseCase<MockReturnRepository<A>, P>,
    r: Result<Vec<Return<A>>, DomainError>,
)
    requires
        call_ensures(ReturnUseCase::<MockReturnRepository<A>, P>::list, (&uc,), r),
    ensures
        r matches Ok(v) ==> return_views(v@) == uc.repository().stored_returns(),
{
}

} // verus!
