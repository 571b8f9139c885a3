//! Recording a sale inside one transaction: the product is checked, the
//! sold items are taken from its stock, the sale and the exit movement are
//! recorded, and the transaction is committed, or rolled back when a step
//! fails.
//!
//! Prices are money amounts of the type the storages use; the rules never
//! compute with them. Whether the unit price is positive, and the total
//! price (unit price times quantity), are worked out by the caller.

use vstd::prelude::*;

use crate::domain::entity::product::{
    ProductView, product_id_is, product_not_found, product_not_found_message,
};
use crate::domain::entity::sale::{CreateSaleInput, Sale, SaleView, sale_made_from};
use crate::domain::entity::stock::{
    CreateStockMovementInput, StockMovementView, insufficient_stock, quantity_of, quantity_set,
};
use crate::domain::error::{DomainError, is_bad_request, is_not_found};
use crate::domain::lookup::{any_match, first_match, lemma_first_match_some_iff};
use crate::domain::port::product_repository::ProductRepository;
use crate::domain::port::sale_repository::SaleRepository;
use crate::domain::port::stock_repository::StockRepository;
use crate::domain::port::unit_of_work::{UnitOfWork, UnitOfWorkFactory, WorkAmount, same_store};
use crate::domain::usecase::stock_usecase::{law_exit_keeps_stock_non_negative, quantities_non_negative};

verus! {

/// Message refusing a sale of no items or fewer.
pub open spec fn non_positive_sale_quantity() -> Seq<char> {
    "Quantidade deve ser maior que zero"@
}

/// Message refusing a unit price that is not positive.
pub open spec fn non_positive_unit_price() -> Seq<char> {
    "Preço unitário deve ser maior que zero"@
}

/// Message refusing the sale of a product that is not available.
pub open spec fn product_unavailable() -> Seq<char> {
    "Produto não está disponível para venda"@
}

/// The status a product must have to be sold.
pub open spec fn sellable_status() -> Seq<char> {
    "available"@
}

/// The product with the given id is stored and can be sold.
pub open spec fn sellable(products: Seq<ProductView>, product_id: Seq<char>) -> bool {
    first_match(products, product_id_is(product_id)) matches Some(p) && p.status == sellable_status()
}

/// The product with the given id is stored but cannot be sold.
pub open spec fn stored_but_unavailable(products: Seq<ProductView>, product_id: Seq<char>) -> bool {
    first_match(products, product_id_is(product_id)) matches Some(p) && p.status != sellable_status()
}

/// The type of the prices of the sales recorded in the transactions of `F`.
pub type SaleAmount<F> = WorkAmount<F>;

/// `m` is the exit of `quantity` items of the product recorded for the sale
/// `sale_id`: reason "Venda", referencing the sale.
pub open spec fn sale_exit_recorded(m: StockMovementView, product_id: Seq<char>, quantity: i32, sale_id: Seq<char>) -> bool {
    &&& m.product_id == product_id
    &&& m.movement_type == "out"@
    &&& m.quantity == quantity
    &&& m.reason == Some("Venda"@)
    &&& m.reference == Some(sale_id)
}

/// What the transaction of a sale `s` of `quantity` items of the product
/// hands over when `after` commits it, the transaction having started from
/// what `before` stores: the items are taken from the product's stock, the
/// sale is added to the sales and its exit to the movements, and the
/// products are as they were.
pub open spec fn sale_committed<F: UnitOfWorkFactory>(
    before: F,
    after: F,
    product_id: Seq<char>,
    quantity: i32,
    s: SaleView<WorkAmount<F>>,
) -> bool {
    after.last_commit() matches Some(c) && {
        &&& quantity_set(
            before.stored_stocks(),
            c.stocks,
            product_id,
            (quantity_of(before.stored_stocks(), product_id) - quantity) as i32,
        )
        &&& c.movements == before.stored_movements().push(c.movements.last())
        &&& sale_exit_recorded(c.movements.last(), product_id, quantity, s.id)
        &&& c.sales == before.stored_sales().push(s)
        &&& c.products == before.stored_products()
    }
}

/// Sales, each recorded inside one transaction.
pub struct SaleUseCase<F: UnitOfWorkFactory> {
    uow_factory: F,
}

impl<F: UnitOfWorkFactory> SaleUseCase<F> {
    /// The source of the transactions in which sales are recorded.
    pub closed spec fn uow_factory(&self) -> F {
        self.uow_factory
    }

    pub fn new(uow_factory: F) -> (r: Self)
        ensures
            r.uow_factory() == uow_factory,
    {
        SaleUseCase { uow_factory }
    }

    /// The source of the transactions, for inspection.
    pub fn uow_store(&self) -> (r: &F)
        ensures
            *r == self.uow_factory(),
    {
        &self.uow_factory
    }

    /// Records a sale of `input.quantity` items of the product at
    /// `input.unit_price` each (positive or not: `unit_price_positive`),
    /// `total_price` in all. The quantity must be positive, then the price;
    /// a transaction is opened, the product must exist (`NotFound`) and be
    /// available (`BadRequest`), and the items are taken from its stock,
    /// refused when there are not enough. The sale is recorded, then the
    /// exit of the items (reason "Venda", referencing the sale), and the
    /// transaction is committed: the stock change, the sale and the exit are
    /// committed together or not at all. A failure inside the transaction rolls
    /// it back; a failure to open or to commit it is reported as it is.
    pub fn create(&mut self, input: CreateSaleInput<SaleAmount<F>>, unit_price_positive: bool, total_price: SaleAmount<F>) -> (r: Result<
        Sale<SaleAmount<F>>,
        DomainError,
    >)
        ensures
            input.quantity <= 0 ==> is_bad_request(r, non_positive_sale_quantity()),
            input.quantity > 0 && !unit_price_positive ==> is_bad_request(r, non_positive_unit_price()),
            input.quantity > 0 && unit_price_positive ==> {
                let products = old(self).uow_factory().stored_products();
                let stocks = old(self).uow_factory().stored_stocks();
                let pid = input.product_id@;
                &&& !any_match(products, product_id_is(pid)) ==> r is Err
                &&& stored_but_unavailable(products, pid) ==> r is Err
                &&& quantity_of(stocks, pid) < input.quantity ==> r is Err
                &&& old(self).uow_factory().healthy() ==> {
                    &&& !any_match(products, product_id_is(pid)) ==> is_not_found(r, product_not_found(pid))
                    &&& stored_but_unavailable(products, pid) ==> is_bad_request(r, product_unavailable())
                    &&& sellable(products, pid) && quantity_of(stocks, pid) < input.quantity
                        ==> is_bad_request(r, insufficient_stock(quantity_of(stocks, pid), input.quantity as int))
                    &&& sellable(products, pid) && quantity_of(stocks, pid) >= input.quantity ==> r is Ok
                }
            },
            r matches Ok(s) ==> {
                &&& input.quantity > 0
                &&& unit_price_positive
                &&& sellable(old(self).uow_factory().stored_products(), input.product_id@)
                &&& quantity_of(old(self).uow_factory().stored_stocks(), input.product_id@) >= input.quantity
                &&& sale_made_from(s@, input, total_price)
                &&& sale_committed(old(self).uow_factory(), final(self).uow_factory(), input.product_id@, input.quantity, s@)
            },
            r is Err ==> same_store(final(self).uow_factory(), old(self).uow_factory()),
            r is Ok && quantities_non_negative(old(self).uow_factory().stored_stocks()) ==> (final(self).uow_factory().last_commit() matches Some(c)
                && quantities_non_negative(c.stocks)),
            final(self).uow_factory().healthy() == old(self).uow_factory().healthy(),
    {
        if input.quantity <= 0 {
            return Err(DomainError::BadRequest(String::from_str("Quantidade deve ser maior que zero")));
        }
        if !unit_price_positive {
            return Err(DomainError::BadRequest(String::from_str("Preço unitário deve ser maior que zero")));
        }
        let mut work = self.uow_factory.begin()?;
        let ghost q0 = quantity_of(self.uow_factory.stored_stocks(), input.product_id@);
        proof {
            lemma_first_match_some_iff(self.uow_factory.stored_products(), product_id_is(input.product_id@));
        }
        let found = match work.products().find_by_id(input.product_id.as_str()) {
            Ok(f) => f,
            Err(e) => {
                let _ = self.uow_factory.rollback(work);
                return Err(e);
            },
        };
        match found {
            None => {
                let _ = self.uow_factory.rollback(work);
                return Err(DomainError::NotFound(product_not_found_message(input.product_id.as_str())));
            },
            Some(p) => {
                let available = String::from_str("available");
                proof {
                    reveal_strlit("available");
                }
                if p.status != available {
                    let _ = self.uow_factory.rollback(work);
                    return Err(DomainError::BadRequest(String::from_str("Produto não está disponível para venda")));
                }
            },
        }
        let ghost stocks0 = work.stock_repo().stored_stocks();
        match work.stocks().atomic_decrement(input.product_id.as_str(), input.quantity) {
            Ok(_) => {},
            Err(e) => {
                let _ = self.uow_factory.rollback(work);
                return Err(e);
            },
        }
        let ghost stocks1 = work.stock_repo().stored_stocks();
        let sale = match work.sales().create(&input, total_price) {
            Ok(s) => s,
            Err(e) => {
                let _ = self.uow_factory.rollback(work);
                return Err(e);
            },
        };
        let movement_input = sale_exit(input.product_id.as_str(), input.quantity, sale.id.as_str());
        let ghost movements1 = work.stock_repo().stored_movements();
        let recorded = match work.stocks().create_movement(&movement_input) {
            Ok(m) => m,
            Err(e) => {
                let _ = self.uow_factory.rollback(work);
                return Err(e);
            },
        };
        proof {
            assert(work.stock_repo().stored_movements().last() == recorded@);
            assert(work.stock_repo().stored_stocks() == stocks1);
            if quantities_non_negative(stocks0) {
                law_exit_keeps_stock_non_negative(stocks0, stocks1, input.product_id@, input.quantity, (q0 - input.quantity) as i32);
            }
        }
        self.uow_factory.commit(work)?;
        Ok(sale)
    }
}

/// The exit movement recorded for a sale of `quantity` items of the
/// product: reason "Venda", referencing the sale.
pub open spec fn sale_movement(m: CreateStockMovementInput, product_id: Seq<char>, quantity: i32, sale_id: Seq<char>) -> bool {
    &&& m.product_id@ == product_id
    &&& m.movement_type@ == "out"@
    &&& m.quantity == quantity
    &&& m.reason.deep_view() == Some("Venda"@)
    &&& m.reference.deep_view() == Some(sale_id)
}

/// The exit of `quantity` items of the product for the sale `sale_id`.
pub fn sale_exit(product_id: &str, quantity: i32, sale_id: &str) -> (r: CreateStockMovementInput)
    ensures
        sale_movement(r, product_id@, quantity, sale_id@),
{
    proof {
        reveal_strlit("out");
        reveal_strlit("Venda");
    }
    CreateStockMovementInput {
        product_id: product_id.to_owned(),
        movement_type: String::from_str("out"),
        quantity,
        reason: Some(String::from_str("Venda")),
        reference: Some(sale_id.to_owned()),
    }
}

} // verus!
