//! Use cases on products: listing, lookup, registration with a unique SKU,
//! update, status change and removal.

use vstd::prelude::*;

use crate::domain::entity::product::{
    CreateProductInput, Product, ProductView, UpdateProductInput, VALID_PRODUCT_STATUSES,
    product_id_is, product_made_from, product_not_found, product_not_found_message,
    product_sku_is, product_status_set, product_statuses, product_updated, product_views,
};
use crate::domain::error::{DomainError, is_bad_request, is_conflict, is_not_found};
use crate::domain::lookup::{
    any_match, first_match, is_first_match, lemma_first_match_after_push,
    lemma_first_match_after_update, lemma_first_match_some_iff, lemma_without_keeps_elements,
    lemma_without_push, lemma_without_removes, without,
};
use crate::domain::entity::product::status_available;
use crate::domain::port::mocks::MockProductRepository;
use crate::domain::port::product_repository::ProductRepository;
use crate::domain::text::{enclose, is_one_of, join, joined, one_of};

verus! {

/// Message refusing a SKU that is already registered.
pub open spec fn sku_taken(sku: Seq<char>) -> Seq<char> {
    "SKU '"@ + sku + "' já existe"@
}

/// Message refusing a status outside `statuses`.
pub open spec fn invalid_status(statuses: Seq<&str>) -> Seq<char> {
    "Status inválido. Use: "@ + joined(statuses, ", "@)
}

/// `Status inválido. Use: {statuses joined by ", "}`.
pub fn invalid_status_message(statuses: &[&str]) -> (r: String)
    ensures
        r@ == invalid_status(statuses@),
{
    let mut m = String::from_str("Status inválido. Use: ");
    let list = join(statuses, ", ");
    m.append(list.as_str());
    m
}

/// Every stored product has one of the valid statuses.
pub open spec fn statuses_valid(s: Seq<ProductView>) -> bool {
    forall|i: int| 0 <= i < s.len() ==> one_of((#[trigger] s[i]).status, product_statuses())
}

/// No two stored products share a SKU.
pub open spec fn skus_unique(s: Seq<ProductView>) -> bool {
    forall|i: int, j: int| 0 <= i < j < s.len() ==> (#[trigger] s[i]).sku != (#[trigger] s[j]).sku
}

/// The catalog is consistent: valid statuses and unique SKUs.
pub open spec fn catalog_consistent(s: Seq<ProductView>) -> bool {
    statuses_valid(s) && skus_unique(s)
}

/// Law: registering a product whose SKU is not taken keeps the catalog
/// consistent, and the new product is the one found under its SKU.
pub proof fn law_registration_keeps_catalog_consistent(
    before: Seq<ProductView>,
    p: ProductView,
    input: CreateProductInput,
)
    requires
        catalog_consistent(before),
        !any_match(before, product_sku_is(input.sku@)),
        product_made_from(p, input),
    ensures
        catalog_consistent(before.push(p)),
        first_match(before.push(p), product_sku_is(input.sku@)) == Some(p),
{
    let after = before.push(p);
    reveal_strlit("available");
    assert(product_statuses()[0]@ == status_available());
    assert forall|i: int| 0 <= i < after.len() implies one_of((#[trigger] after[i]).status, product_statuses()) by {
        if i < before.len() {
            assert(after[i] == before[i]);
        } else {
            assert(after[i] == p);
        }
    }
    assert forall|i: int, j: int| 0 <= i < j < after.len() implies (#[trigger] after[i]).sku != (#[trigger] after[j]).sku by {
        if j < before.len() {
            assert(after[i] == before[i] && after[j] == before[j]);
        } else {
            assert(after[i] == before[i]);
            if before[i].sku == p.sku {
                assert(product_sku_is(input.sku@)(before[i]));
            }
        }
    }
    lemma_first_match_after_push(before, product_sku_is(input.sku@), p);
}

/// Law: updating a product keeps the catalog consistent, and the updated
/// product is the one found under its id.
pub proof fn law_update_keeps_catalog_consistent(
    before: Seq<ProductView>,
    i: int,
    p: ProductView,
    input: UpdateProductInput,
)
    requires
        catalog_consistent(before),
        is_first_match(before, product_id_is(p.id), i),
        product_updated(before[i], p, input),
    ensures
        catalog_consistent(before.update(i, p)),
        first_match(before.update(i, p), product_id_is(p.id)) == Some(p),
{
    lemma_replacement_keeps_catalog_consistent(before, i, p);
    lemma_first_match_after_update(before, product_id_is(p.id), i, p);
}

/// Law: setting a valid status keeps the catalog consistent, and the
/// product found under its id then has that status.
pub proof fn law_status_change_keeps_catalog_consistent(
    before: Seq<ProductView>,
    i: int,
    p: ProductView,
    status: Seq<char>,
)
    requires
        catalog_consistent(before),
        is_first_match(before, product_id_is(p.id), i),
        one_of(status, product_statuses()),
        product_status_set(before[i], p, status),
    ensures
        catalog_consistent(before.update(i, p)),
        first_match(before.update(i, p), product_id_is(p.id)) == Some(p),
        p.status == status,
{
    lemma_replacement_keeps_catalog_consistent(before, i, p);
    lemma_first_match_after_update(before, product_id_is(p.id), i, p);
}

/// Law: removing the products with an id keeps the catalog consistent, and
/// no product with that id is left.
pub proof fn law_removal_keeps_catalog_consistent(before: Seq<ProductView>, id: Seq<char>)
    requires
        catalog_consistent(before),
    ensures
        catalog_consistent(without(before, product_id_is(id))),
        !any_match(without(before, product_id_is(id)), product_id_is(id)),
    decreases before.len(),
{
    let p = product_id_is(id);
    let w = without(before, p);
    lemma_without_removes(before, p);
    assert forall|k: int| 0 <= k < w.len() implies one_of((#[trigger] w[k]).status, product_statuses()) by {
        assert(w.contains(w[k]));
        lemma_without_keeps_elements(before, p, w[k]);
    }
    if before.len() > 0 {
        let t = before.drop_last();
        let x = before.last();
        assert(before =~= t.push(x));
        assert forall|i: int, j: int| 0 <= i < j < t.len() implies (#[trigger] t[i]).sku != (#[trigger] t[j]).sku by {
            assert(t[i] == before[i] && t[j] == before[j]);
        }
        assert forall|i: int| 0 <= i < t.len() implies one_of((#[trigger] t[i]).status, product_statuses()) by {
            assert(t[i] == before[i]);
        }
        law_removal_keeps_catalog_consistent(t, id);
        lemma_without_push(t, p, x);
        let wt = without(t, p);
        if !p(x) {
            assert forall|i: int, j: int| 0 <= i < j < w.len() implies (#[trigger] w[i]).sku != (#[trigger] w[j]).sku by {
                if j < wt.len() {
                    assert(w[i] == wt[i] && w[j] == wt[j]);
                } else {
                    assert(w[j] == x);
                    assert(w[i] == wt[i]);
                    assert(wt.contains(wt[i]));
                    lemma_without_keeps_elements(t, p, wt[i]);
                    let m = choose|m: int| 0 <= m < t.len() && t[m] == wt[i];
                    assert(before[m] == t[m]);
                    assert(before[before.len() - 1] == x);
                }
            }
        }
    }
}

/// Replacing a product by one with the same SKU and a valid status keeps
/// the catalog consistent.
proof fn lemma_replacement_keeps_catalog_consistent(before: Seq<ProductView>, i: int, p: ProductView)
    requires
        catalog_consistent(before),
        0 <= i < before.len(),
        p.sku == before[i].sku,
        one_of(p.status, product_statuses()),
    ensures
        catalog_consistent(before.update(i, p)),
{
    let after = before.update(i, p);
    assert forall|k: int| 0 <= k < after.len() implies one_of((#[trigger] after[k]).status, product_statuses()) by {
        if k != i {
            assert(after[k] == before[k]);
        }
    }
    assert forall|a: int, b: int| 0 <= a < b < after.len() implies (#[trigger] after[a]).sku != (#[trigger] after[b]).sku by {
        assert(after[a].sku == before[a].sku);
        assert(after[b].sku == before[b].sku);
    }
}

/// Operations on products.
pub struct ProductUseCase<R: ProductRepository> {
    repo: R,
}

impl<R: ProductRepository> ProductUseCase<R> {
    /// The product storage the use case works on.
    pub closed spec fn repository(&self) -> R {
        self.repo
    }

    pub fn new(repo: R) -> (r: Self)
        ensures
            r.repository() == repo,
    {
        ProductUseCase { repo }
    }

    /// The product storage, for inspection.
    pub fn product_store(&self) -> (r: &R)
        ensures
            *r == self.repository(),
    {
        &self.repo
    }

    /// All stored products.
    pub fn list(&self) -> (r: Result<Vec<Product>, DomainError>)
        ensures
            self.repository().healthy() ==> r is Ok,
            r matches Ok(v) ==> product_views(v@).to_multiset()
                == self.repository().stored_products().to_multiset(),
            r matches Ok(v) ==> product_views(v@) == self.repository().listed_products(),
    {
        self.repo.list()
    }

    /// The product with the given id; `NotFound` when there is none.
    pub fn get(&self, id: &str) -> (r: Result<Product, DomainError>)
        ensures
            r matches Ok(p) ==> Some(p@) == first_match(
                self.repository().stored_products(),
                product_id_is(id@),
            ),
            !any_match(self.repository().stored_products(), product_id_is(id@)) ==> r is Err,
            self.repository().healthy() ==> {
                &&& any_match(self.repository().stored_products(), product_id_is(id@)) ==> r is Ok
                &&& !any_match(self.repository().stored_products(), product_id_is(id@))
                    ==> is_not_found(r, product_not_found(id@))
            },
    {
        proof {
            lemma_first_match_some_iff(self.repo.stored_products(), product_id_is(id@));
        }
        match self.repo.find_by_id(id)? {
            Some(p) => Ok(p),
            None => Err(DomainError::NotFound(product_not_found_message(id))),
        }
    }

    /// Registers a product; refused with `Conflict` when its SKU is taken.
    pub fn create(&mut self, input: CreateProductInput) -> (r: Result<Product, DomainError>)
        ensures
            any_match(old(self).repository().stored_products(), product_sku_is(input.sku@)) ==> {
                &&& r is Err
                &&& final(self).repository() == old(self).repository()
            },
            old(self).repository().healthy() ==> {
                &&& any_match(old(self).repository().stored_products(), product_sku_is(input.sku@))
                    ==> is_conflict(r, sku_taken(input.sku@))
                &&& !any_match(old(self).repository().stored_products(), product_sku_is(input.sku@))
                    ==> r is Ok
            },
            r matches Ok(p) ==> {
                &&& product_made_from(p@, input)
                &&& final(self).repository().stored_products()
                    == old(self).repository().stored_products().push(p@)
            },
    {
        proof {
            lemma_first_match_some_iff(self.repo.stored_products(), product_sku_is(input.sku@));
        }
        match self.repo.find_by_sku(input.sku.as_str())? {
            Some(_) => {
                return Err(DomainError::Conflict(enclose("SKU '", input.sku.as_str(), "' já existe")));
            },
            None => {},
        }
        self.repo.create(&input)
    }

    /// Applies `input` to the product with the given id; `NotFound` when there is none.
    pub fn update(&mut self, id: &str, input: UpdateProductInput) -> (r: Result<Product, DomainError>)
        ensures
            !any_match(old(self).repository().stored_products(), product_id_is(id@)) ==> {
                &&& r is Err
                &&& final(self).repository() == old(self).repository()
            },
            old(self).repository().healthy() ==> {
                &&& any_match(old(self).repository().stored_products(), product_id_is(id@)) ==> r is Ok
                &&& !any_match(old(self).repository().stored_products(), product_id_is(id@))
                    ==> is_not_found(r, product_not_found(id@))
            },
            r matches Ok(p) ==> exists|i: int| {
                &&& is_first_match(old(self).repository().stored_products(), product_id_is(id@), i)
                &&& product_updated(old(self).repository().stored_products()[i], p@, input)
                &&& final(self).repository().stored_products()
                    == old(self).repository().stored_products().update(i, p@)
            },
    {
        proof {
            lemma_first_match_some_iff(self.repo.stored_products(), product_id_is(id@));
        }
        match self.repo.find_by_id(id)? {
            Some(_) => {},
            None => {
                return Err(DomainError::NotFound(product_not_found_message(id)));
            },
        }
        self.repo.update(id, &input)
    }

    /// Sets the status of the product with the given id; the status must be
    /// one of the valid ones.
    pub fn update_status(&mut self, id: &str, status: &str) -> (r: Result<Product, DomainError>)
        ensures
            !one_of(status@, product_statuses()) ==> {
                &&& is_bad_request(r, invalid_status(product_statuses()))
                &&& final(self).repository() == old(self).repository()
            },
            one_of(status@, product_statuses()) ==> {
                &&& old(self).repository().healthy()
                    && any_match(old(self).repository().stored_products(), product_id_is(id@)) ==> r is Ok
                &&& !any_match(old(self).repository().stored_products(), product_id_is(id@)) ==> r is Err
                &&& old(self).repository().healthy() && !any_match(old(self).repository().stored_products(), product_id_is(id@))
                    ==> is_not_found(r, product_not_found(id@))
            },
            r matches Ok(p) ==> exists|i: int| {
                &&& is_first_match(old(self).repository().stored_products(), product_id_is(id@), i)
                &&& product_status_set(old(self).repository().stored_products()[i], p@, status@)
                &&& final(self).repository().stored_products()
                    == old(self).repository().stored_products().update(i, p@)
            },
    {
        let statuses: &[&str] = &VALID_PRODUCT_STATUSES;
        proof {
            reveal_strlit("available");
            reveal_strlit("unavailable");
            reveal_strlit("discontinued");
            assert(statuses@ == product_statuses());
        }
        if !is_one_of(status, statuses) {
            return Err(DomainError::BadRequest(invalid_status_message(statuses)));
        }
        self.repo.update_status(id, status)
    }

    /// Removes the product with the given id.
    pub fn delete(&mut self, id: &str) -> (r: Result<(), DomainError>)
        ensures
            old(self).repository().healthy()
                && any_match(old(self).repository().stored_products(), product_id_is(id@)) ==> r is Ok,
            !any_match(old(self).repository().stored_products(), product_id_is(id@)) ==> r is Err,
            old(self).repository().healthy() && !any_match(old(self).repository().stored_products(), product_id_is(id@))
                ==> is_not_found(r, product_not_found(id@)),
            r is Ok ==> final(self).repository().stored_products()
                == without(old(self).repository().stored_products(), product_id_is(id@)),
    {
        self.repo.delete(id)
    }
}

/// Law: `list` gives the products exactly as the storage lists them: as
/// many, and each at its place, so none is left out, added or moved.
pub proof fn law_list_keeps_the_storage_order<R: ProductRepository>(
    uc: ProductUseCase<R>,
    r: Result<Vec<Product>, DomainError>,
    i: int,
)
    requires
        call_ensures(ProductUseCase::<R>::list, (&uc,), r),
    ensures
        r matches Ok(v) ==> v@.len() == uc.repository().listed_products().len(),
        r matches Ok(v) ==> (0 <= i < v@.len() ==> v@[i]@ == uc.repository().listed_products()[i]),
{
    if r is Ok {
        let v = r->Ok_0;
        assert(product_views(v@).len() == v@.len());
        if 0 <= i < v@.len() {
            assert(product_views(v@)[i] == v@[i]@);
        }
    }
}

/// Law: with the in-memory storage, `list` gives the products in the order
/// they are stored (registration order), each at its place.
pub proof fn law_in_memory_list_is_the_stored_order(
    uc: ProductUseCase<MockProductRepository>,
    r: Result<Vec<Product>, DomainError>,
)
    requires
        call_ensures(ProductUseCase::<MockProductRepository>::list, (&uc,), r),
    ensures
        r matches Ok(v) ==> product_views(v@) == uc.repository().stored_products(),
{
}

} // verus!
