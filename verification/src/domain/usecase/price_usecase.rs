//! Use cases on the prices of products. Amounts must be positive; whether
//! they are is worked out by the caller, which knows their type.

use vstd::prelude::*;

use crate::domain::entity::price::{
    CreatePriceInput, Price, UpdatePriceInput, price_id_is, price_made_from, price_not_found,
    price_not_found_message, price_updated, price_views, prices_of,
};
use crate::domain::entity::product::{product_id_is, product_not_found, product_not_found_message};
use crate::domain::error::{DomainError, is_bad_request, is_not_found};
use crate::domain::lookup::{any_match, first_match, first_match_index, is_first_match, lemma_first_match_some_iff, without};
use crate::domain::port::price_repository::PriceRepository;
use crate::domain::port::product_repository::ProductRepository;

verus! {

/// Message refusing a new price whose amounts are not both positive.
pub open spec fn non_positive_prices() -> Seq<char> {
    "Preços devem ser maiores que zero"@
}

/// Message refusing a cost price that is not positive.
pub open spec fn non_positive_cost_price() -> Seq<char> {
    "Preço de custo deve ser maior que zero"@
}

/// Message refusing a sale price that is not positive.
pub open spec fn non_positive_sale_price() -> Seq<char> {
    "Preço de venda deve ser maior que zero"@
}

/// Operations on prices; products are looked up to price them.
pub struct PriceUseCase<R: PriceRepository, P: ProductRepository> {
    repo: R,
    product_repo: P,
}

impl<R: PriceRepository, P: ProductRepository> PriceUseCase<R, P> {
    /// The price storage the use case works on.
    pub closed spec fn repository(&self) -> R {
        self.repo
    }

    /// The product storage the use case consults.
    pub closed spec fn product_repository(&self) -> P {
        self.product_repo
    }

    pub fn new(repo: R, product_repo: P) -> (r: Self)
        ensures
            r.repository() == repo,
            r.product_repository() == product_repo,
    {
        PriceUseCase { repo, product_repo }
    }

    /// The price storage, for inspection.
    pub fn price_store(&self) -> (r: &R)
        ensures
            *r == self.repository(),
    {
        &self.repo
    }

    /// The prices of the product.
    pub fn list_by_product(&self, product_id: &str) -> (r: Result<Vec<Price<R::Amount>>, DomainError>)
        ensures
            self.repository().healthy() ==> r is Ok,
            r matches Ok(v) ==> price_views(v@).to_multiset()
                == prices_of(self.repository().stored_prices(), product_id@).to_multiset(),
    {
        self.repo.list_by_product(product_id)
    }

    /// Sets a new price of an existing product. Both amounts must be
    /// positive (`prices_positive`), then the product must exist.
    pub fn create(&mut self, product_id: &str, input: CreatePriceInput<R::Amount>, prices_positive: bool) -> (r: Result<
        Price<R::Amount>,
        DomainError,
    >)
        ensures
            !prices_positive ==> {
                &&& is_bad_request(r, non_positive_prices())
                &&& final(self).repository() == old(self).repository()
            },
            prices_positive && !any_match(old(self).product_repository().stored_products(), product_id_is(product_id@))
                ==> {
                &&& r is Err
                &&& final(self).repository() == old(self).repository()
            },
            prices_positive && old(self).product_repository().healthy() ==> {
                &&& !any_match(old(self).product_repository().stored_products(), product_id_is(product_id@))
                    ==> is_not_found(r, product_not_found(product_id@))
                &&& any_match(old(self).product_repository().stored_products(), product_id_is(product_id@))
                    && old(self).repository().healthy() ==> r is Ok
            },
            r matches Ok(p) ==> {
                &&& prices_positive
                &&& any_match(old(self).product_repository().stored_products(), product_id_is(product_id@))
                &&& price_made_from(p@, product_id@, input)
                &&& final(self).repository().stored_prices() == old(self).repository().stored_prices().push(p@)
            },
            final(self).product_repository() == old(self).product_repository(),
    {
        if !prices_positive {
            return Err(DomainError::BadRequest(String::from_str("Preços devem ser maiores que zero")));
        }
        if !self.product_repo.exists_by_id(product_id)? {
            return Err(DomainError::NotFound(product_not_found_message(product_id)));
        }
        self.repo.create(product_id, &input)
    }

    /// Applies `input` to the price with the given id. A cost price given
    /// must be positive (`cost_price_positive`), then a sale price given
    /// (`sale_price_positive`); the price must exist (`NotFound`).
    pub fn update(
        &mut self,
        id: &str,
        input: UpdatePriceInput<R::Amount>,
        cost_price_positive: bool,
        sale_price_positive: bool,
    ) -> (r: Result<Price<R::Amount>, DomainError>)
        ensures
            input.cost_price is Some && !cost_price_positive ==> {
                &&& is_bad_request(r, non_positive_cost_price())
                &&& final(self).repository() == old(self).repository()
            },
            !(input.cost_price is Some && !cost_price_positive) && input.sale_price is Some && !sale_price_positive
                ==> {
                &&& is_bad_request(r, non_positive_sale_price())
                &&& final(self).repository() == old(self).repository()
            },
            !(input.cost_price is Some && !cost_price_positive) && !(input.sale_price is Some && !sale_price_positive)
                ==> {
                &&& !any_match(old(self).repository().stored_prices(), price_id_is(id@)) ==> r is Err
                &&& old(self).repository().healthy() && !any_match(old(self).repository().stored_prices(), price_id_is(id@))
                    ==> is_not_found(r, price_not_found(id@))
                &&& old(self).repository().healthy() && any_match(old(self).repository().stored_prices(), price_id_is(id@))
                    ==> r is Ok
            },
            r matches Ok(p) ==> {
                let i = first_match_index(old(self).repository().stored_prices(), price_id_is(id@));
                &&& is_first_match(old(self).repository().stored_prices(), price_id_is(id@), i)
                &&& price_updated(old(self).repository().stored_prices()[i], p@, input)
                &&& final(self).repository().stored_prices() == old(self).repository().stored_prices().update(i, p@)
            },
            final(self).product_repository() == old(self).product_repository(),
    {
        if input.cost_price.is_some() && !cost_price_positive {
            return Err(DomainError::BadRequest(String::from_str("Preço de custo deve ser maior que zero")));
        }
        if input.sale_price.is_some() && !sale_price_positive {
            return Err(DomainError::BadRequest(String::from_str("Preço de venda deve ser maior que zero")));
        }
        proof {
            lemma_first_match_some_iff(self.repo.stored_prices(), price_id_is(id@));
        }
        match self.repo.find_by_id(id)? {
            Some(_) => {},
            None => {
                return Err(DomainError::NotFound(price_not_found_message(id)));
            },
        }
        self.repo.update(id, &input)
    }

    /// Removes the prices with the given id; fails when there is none.
    pub fn delete(&mut self, id: &str) -> (r: Result<(), DomainError>)
        ensures
            old(self).repository().healthy() && any_match(old(self).repository().stored_prices(), price_id_is(id@))
                ==> r is Ok,
            !any_match(old(self).repository().stored_prices(), price_id_is(id@)) ==> r is Err,
            old(self).repository().healthy() && !any_match(old(self).repository().stored_prices(), price_id_is(id@))
                ==> is_not_found(r, price_not_found(id@)),
            r is Ok ==> final(self).repository().stored_prices() == without(
                old(self).repository().stored_prices(),
                price_id_is(id@),
            ),
            final(self).product_repository() == old(self).product_repository(),
    {
        self.repo.delete(id)
    }
}

} // verus!
