//! Use cases on warranties: listing, lookup, registration (with the expiry
//! date computed from the purchase date) and status change.

use vstd::prelude::*;

use crate::domain::calendar::{
    first_calendar_day, format_iso_date, iso_date_text, last_calendar_day, parse_iso_date,
    parsed_iso_day,
};
use crate::domain::entity::product::{product_id_is, product_not_found, product_not_found_message};
use crate::domain::entity::warranty::{
    CreateWarrantyInput, VALID_WARRANTY_STATUSES, Warranty, WarrantyView, warranty_id_is, warranty_made_from,
    warranty_not_found, warranty_not_found_message, warranty_status_set, warranty_statuses,
    warranty_views,
};
use crate::domain::error::{DomainError, is_bad_request, is_not_found};
use crate::domain::lookup::{any_match, first_match, is_first_match, lemma_first_match_some_iff};
use crate::domain::port::product_repository::ProductRepository;
use crate::domain::port::warranty_repository::WarrantyRepository;
use crate::domain::port::mocks::MockWarrantyRepository;
use crate::domain::text::{is_one_of, one_of};
use crate::domain::usecase::product_usecase::{invalid_status, invalid_status_message};

verus! {

/// Message refusing a warranty of no days or fewer.
pub open spec fn non_positive_days() -> Seq<char> {
    "Dias de garantia deve ser maior que zero"@
}

/// Message refusing a purchase date that is not "YYYY-MM-DD".
pub open spec fn invalid_date() -> Seq<char> {
    "Formato de data inválido. Use YYYY-MM-DD"@
}

/// A warranty bought on the day `day` (when the purchase date was read) and
/// lasting `days` days expires within the calendar chrono can represent
/// (otherwise adding the days to the purchase date overflows).
pub open spec fn expiry_fits(day: Option<int>, days: int) -> bool {
    days > 0 ==> match day {
        Some(d) => first_calendar_day() <= d && d + days <= last_calendar_day(),
        None => true,
    }
}

/// The expiry of a warranty of `input` stays within the calendar.
pub open spec fn expiry_within_calendar(input: CreateWarrantyInput) -> bool {
    expiry_fits(parsed_iso_day(input.purchase_date@), input.warranty_days as int)
}

/// Expiry date of a warranty bought on the day `d` and lasting `days` days.
pub open spec fn expiry_date(d: int, days: int) -> Seq<char> {
    iso_date_text(d + days)
}

/// What registering a warranty of `input` does when its purchase date reads
/// as the day `day` (`None`: the date is not "YYYY-MM-DD"), given the
/// products and the warranties before (`products`, `before`) and the
/// warranties after (`after`): the product must exist, the days must be
/// positive and the purchase date must have been read; the warranty then
/// expires that many days after the purchase date.
pub open spec fn warranty_registered_on<PR: ProductRepository, WR: WarrantyRepository>(
    products: PR,
    before: WR,
    after: WR,
    input: CreateWarrantyInput,
    day: Option<int>,
    r: Result<Warranty, DomainError>,
) -> bool {
    let exists = any_match(products.stored_products(), product_id_is(input.product_id@));
    &&& !exists ==> r is Err && after == before
    &&& products.healthy() && !exists ==> is_not_found(r, product_not_found(input.product_id@))
    &&& exists && input.warranty_days <= 0 ==> r is Err && after == before
    &&& products.healthy() && exists && input.warranty_days <= 0 ==> is_bad_request(r, non_positive_days())
    &&& exists && input.warranty_days > 0 && day is None ==> r is Err && after == before
    &&& products.healthy() && exists && input.warranty_days > 0 && day is None
        ==> is_bad_request(r, invalid_date())
    &&& products.healthy() && before.healthy() && exists && input.warranty_days > 0 && day is Some ==> r is Ok
    &&& r matches Ok(w) ==> {
        &&& exists
        &&& input.warranty_days > 0
        &&& day matches Some(d) && warranty_made_from(w@, input, expiry_date(d, input.warranty_days as int))
        &&& after.stored_warranties() == before.stored_warranties().push(w@)
    }
}

/// What registering a warranty of `input` does, its purchase date read
/// with chrono.
pub open spec fn warranty_registered<PR: ProductRepository, WR: WarrantyRepository>(
    products: PR,
    before: WR,
    after: WR,
    input: CreateWarrantyInput,
    r: Result<Warranty, DomainError>,
) -> bool {
    warranty_registered_on(products, before, after, input, parsed_iso_day(input.purchase_date@), r)
}

/// Every stored warranty has one of the valid statuses.
pub open spec fn warranty_statuses_valid(s: Seq<WarrantyView>) -> bool {
    forall|i: int| 0 <= i < s.len() ==> one_of((#[trigger] s[i]).status, warranty_statuses())
}

/// Law: registering a warranty keeps every stored status valid (a new
/// warranty is "active").
pub proof fn law_registration_keeps_statuses_valid(
    before: Seq<WarrantyView>,
    w: WarrantyView,
    input: CreateWarrantyInput,
    expires_at: Seq<char>,
)
    requires
        warranty_statuses_valid(before),
        warranty_made_from(w, input, expires_at),
    ensures
        warranty_statuses_valid(before.push(w)),
{
    reveal_strlit("active");
    assert(warranty_statuses()[0]@ == w.status);
    assert forall|i: int| 0 <= i < before.push(w).len() implies one_of(
        (#[trigger] before.push(w)[i]).status,
        warranty_statuses(),
    ) by {
        if i < before.len() {
            assert(before.push(w)[i] == before[i]);
        }
    }
}

/// Law: a status change that `update_status` accepts keeps every stored
/// status valid.
pub proof fn law_status_change_keeps_statuses_valid(
    before: Seq<WarrantyView>,
    i: int,
    w: WarrantyView,
    status: Seq<char>,
)
    requires
        warranty_statuses_valid(before),
        0 <= i < before.len(),
        one_of(status, warranty_statuses()),
        warranty_status_set(before[i], w, status),
    ensures
        warranty_statuses_valid(before.update(i, w)),
{
    assert forall|k: int| 0 <= k < before.update(i, w).len() implies one_of(
        (#[trigger] before.update(i, w)[k]).status,
        warranty_statuses(),
    ) by {
        if k != i {
            assert(before.update(i, w)[k] == before[k]);
        }
    }
}

/// Operations on warranties.
pub struct WarrantyUseCase<W: WarrantyRepository, P: ProductRepository> {
    repo: W,
    product_repo: P,
}

impl<W: WarrantyRepository, P: ProductRepository> WarrantyUseCase<W, P> {
    /// The warranty storage the use case works on.
    pub closed spec fn repository(&self) -> W {
        self.repo
    }

    /// The product storage the use case consults.
    pub closed spec fn product_repository(&self) -> P {
        self.product_repo
    }

    pub fn new(repo: W, product_repo: P) -> (r: Self)
        ensures
            r.repository() == repo,
            r.product_repository() == product_repo,
    {
        WarrantyUseCase { repo, product_repo }
    }

    /// All stored warranties.
    pub fn list(&self) -> (r: Result<Vec<Warranty>, DomainError>)
        ensures
            self.repository().healthy() ==> r is Ok,
            r matches Ok(v) ==> warranty_views(v@).to_multiset()
                == self.repository().stored_warranties().to_multiset(),
            r matches Ok(v) ==> warranty_views(v@) == self.repository().listed_warranties(),
    {
        self.repo.list()
    }

    /// The warranty with the given id; `NotFound` when there is none.
    pub fn get(&self, id: &str) -> (r: Result<Warranty, DomainError>)
        ensures
            r matches Ok(w) ==> Some(w@) == first_match(
                self.repository().stored_warranties(),
                warranty_id_is(id@),
            ),
            !any_match(self.repository().stored_warranties(), warranty_id_is(id@)) ==> r is Err,
            self.repository().healthy() ==> {
                &&& any_match(self.repository().stored_warranties(), warranty_id_is(id@)) ==> r is Ok
                &&& !any_match(self.repository().stored_warranties(), warranty_id_is(id@))
                    ==> is_not_found(r, warranty_not_found(id@))
            },
    {
        proof {
            lemma_first_match_some_iff(self.repo.stored_warranties(), warranty_id_is(id@));
        }
        match self.repo.find_by_id(id)? {
            Some(w) => Ok(w),
            None => Err(DomainError::NotFound(warranty_not_found_message(id))),
        }
    }

    /// Registers a warranty for an existing product: the days must be
    /// positive and the purchase date "YYYY-MM-DD"; the warranty expires that
    /// many days after the purchase date.
    pub fn create(&mut self, input: CreateWarrantyInput) -> (r: Result<Warranty, DomainError>)
        requires
            any_match(old(self).product_repository().stored_products(), product_id_is(input.product_id@))
                ==> expiry_within_calendar(input),
        ensures
            warranty_registered(
                old(self).product_repository(),
                old(self).repository(),
                final(self).repository(),
                input,
                r,
            ),
            final(self).product_repository() == old(self).product_repository(),
    {
        let day = parse_iso_date(input.purchase_date.as_str());
        self.create_on_day(input, day)
    }

    /// Registers a warranty as `create` does, its purchase date having been
    /// read as the day number `day` (`None`: the date is not "YYYY-MM-DD").
    pub fn create_on_day(&mut self, input: CreateWarrantyInput, day: Option<i32>) -> (r: Result<Warranty, DomainError>)
        requires
            any_match(old(self).product_repository().stored_products(), product_id_is(input.product_id@))
                ==> expiry_fits(
                match day {
                    Some(d) => Some(d as int),
                    None => None,
                },
                input.warranty_days as int,
            ),
        ensures
            warranty_registered_on(
                old(self).product_repository(),
                old(self).repository(),
                final(self).repository(),
                input,
                match day {
                    Some(d) => Some(d as int),
                    None => None,
                },
                r,
            ),
            final(self).product_repository() == old(self).product_repository(),
    {
        if !self.product_repo.exists_by_id(input.product_id.as_str())? {
            return Err(DomainError::NotFound(product_not_found_message(input.product_id.as_str())));
        }
        if input.warranty_days <= 0 {
            return Err(DomainError::BadRequest(String::from_str("Dias de garantia deve ser maior que zero")));
        }
        let purchase_day = match day {
            Some(d) => d,
            None => {
                return Err(DomainError::BadRequest(String::from_str("Formato de data inválido. Use YYYY-MM-DD")));
            },
        };
        let expiry_day = purchase_day + input.warranty_days;
        let expires_at = match format_iso_date(expiry_day) {
            Some(s) => s,
            None => {
                proof {
                    assert(false);
                }
                return Err(DomainError::BadRequest(String::from_str("Formato de data inválido. Use YYYY-MM-DD")));
            },
        };
        self.repo.create(&input, expires_at.as_str())
    }

    /// Registers a warranty as `create` does, unless the product exists and
    /// the expiry would fall after the last date of the calendar; then
    /// nothing is registered and the result is `None`.
    pub fn create_within_calendar(&mut self, input: CreateWarrantyInput) -> (r: Option<Result<Warranty, DomainError>>)
        ensures
            r is None ==> {
                &&& !expiry_within_calendar(input)
                &&& any_match(old(self).product_repository().stored_products(), product_id_is(input.product_id@))
                &&& final(self).repository() == old(self).repository()
            },
            old(self).product_repository().healthy() && !expiry_within_calendar(input)
                && any_match(old(self).product_repository().stored_products(), product_id_is(input.product_id@))
                ==> r is None,
            expiry_within_calendar(input)
                || !any_match(old(self).product_repository().stored_products(), product_id_is(input.product_id@))
                ==> r is Some,
            r matches Some(x) ==> warranty_registered(
                old(self).product_repository(),
                old(self).repository(),
                final(self).repository(),
                input,
                x,
            ),
            final(self).product_repository() == old(self).product_repository(),
    {
        let fits = if input.warranty_days > 0 {
            match parse_iso_date(input.purchase_date.as_str()) {
                Some(d) => (d as i64) + (input.warranty_days as i64) <= 95_745_399i64,
                None => true,
            }
        } else {
            true
        };
        if !fits {
            match self.product_repo.exists_by_id(input.product_id.as_str()) {
                Ok(true) => {
                    return None;
                },
                Ok(false) => {},
                Err(e) => {
                    return Some(Err(e));
                },
            }
        }
        Some(self.create(input))
    }

    /// Sets the status of the warranty with the given id; the status must be
    /// one of the valid ones.
    pub fn update_status(&mut self, id: &str, status: &str) -> (r: Result<Warranty, DomainError>)
        ensures
            !one_of(status@, warranty_statuses()) ==> {
                &&& is_bad_request(r, invalid_status(warranty_statuses()))
                &&& final(self).repository() == old(self).repository()
            },
            one_of(status@, warranty_statuses()) ==> {
                &&& old(self).repository().healthy()
                    && any_match(old(self).repository().stored_warranties(), warranty_id_is(id@)) ==> r is Ok
                &&& !any_match(old(self).repository().stored_warranties(), warranty_id_is(id@)) ==> r is Err
                &&& old(self).repository().healthy() && !any_match(old(self).repository().stored_warranties(), warranty_id_is(id@))
                    ==> is_not_found(r, warranty_not_found(id@))
            },
            r matches Ok(w) ==> exists|i: int| {
                &&& is_first_match(old(self).repository().stored_warranties(), warranty_id_is(id@), i)
                &&& warranty_status_set(old(self).repository().stored_warranties()[i], w@, status@)
                &&& final(self).repository().stored_warranties()
                    == old(self).repository().stored_warranties().update(i, w@)
            },
            final(self).product_repository() == old(self).product_repository(),
    {
        let statuses: &[&str] = &VALID_WARRANTY_STATUSES;
        proof {
            reveal_strlit("active");
            reveal_strlit("expired");
            reveal_strlit("claimed");
            assert(statuses@ == warranty_statuses());
        }
        if !is_one_of(status, statuses) {
            return Err(DomainError::BadRequest(invalid_status_message(statuses)));
        }
        self.repo.update_status(id, status)
    }
}

/// Law: `list` gives the warranties exactly as the storage lists them: as
/// many, and each at its place, so none is left out, added or moved.
pub proof fn law_list_keeps_the_storage_order<W: WarrantyRepository, P: ProductRepository>(
    uc: WarrantyUseCase<W, P>,
    r: Result<Vec<Warranty>, DomainError>,
    i: int,
)
    requires
        call_ensures(WarrantyUseCase::<W, P>::list, (&uc,), r),
    ensures
        r matches Ok(v) ==> v@.len() == uc.repository().listed_warranties().len(),
        r matches Ok(v) ==> (0 <= i < v@.len() ==> v@[i]@ == uc.repository().listed_warranties()[i]),
{
    if r is Ok {
        let v = r->Ok_0;
        assert(warranty_views(v@).len() == v@.len());
        if 0 <= i < v@.len() {
            assert(warranty_views(v@)[i] == v@[i]@);
        }
    }
}

/// Law: with the in-memory storage, `list` gives the warranties in the order
/// they are stored (registration order), each at its place.
pub proof fn law_in_memory_list_is_the_stored_order<P: ProductRepository>(
    uc: WarrantyUseCase<MockWarrantyRepository, P>,
    r: Result<Vec<Warranty>, DomainError>,
)
    requires
        call_ensures(WarrantyUseCase::<MockWarrantyRepository, P>::list, (&uc,), r),
    ensures
        r matches Ok(v) ==> warranty_views(v@) == uc.repository().stored_warranties(),
{
}

} // verus!
