//! Transactions: a unit of work gives access to the storages inside one
//! transaction, which its factory then commits or rolls back.

use vstd::prelude::*;

use crate::domain::entity::product::ProductView;
use crate::domain::entity::sale::SaleView;
use crate::domain::entity::stock::{StockMovementView, StockView};
use crate::domain::error::DomainError;
use crate::domain::port::product_repository::ProductRepository;
use crate::domain::port::sale_repository::SaleRepository;
use crate::domain::port::stock_repository::StockRepository;

verus! {

/// One transaction over the product, stock and sale storages. What it
/// changes becomes permanent when its factory commits it, and is discarded
/// when the factory rolls it back (or when it is dropped).
pub trait UnitOfWork: Sized {
    type Products: ProductRepository;

    type Stocks: StockRepository;

    type Sales: SaleRepository;

    /// The product storage as seen inside the transaction (unspecified where the implementation does not say).
    open spec fn product_repo(&self) -> Self::Products {
        vstd::pervasive::arbitrary()
    }

    /// The stock storage as seen inside the transaction (unspecified where the implementation does not say).
    open spec fn stock_repo(&self) -> Self::Stocks {
        vstd::pervasive::arbitrary()
    }

    /// The sale storage as seen inside the transaction (unspecified where the implementation does not say).
    open spec fn sale_repo(&self) -> Self::Sales {
        vstd::pervasive::arbitrary()
    }

    /// The product storage inside the transaction.
    fn products(&mut self) -> (r: &mut Self::Products)
        ensures
            *r == old(self).product_repo(),
            final(self).product_repo() == *final(r),
            final(self).stock_repo() == old(self).stock_repo(),
            final(self).sale_repo() == old(self).sale_repo(),
    ;

    /// The stock storage inside the transaction.
    fn stocks(&mut self) -> (r: &mut Self::Stocks)
        ensures
            *r == old(self).stock_repo(),
            final(self).stock_repo() == *final(r),
            final(self).product_repo() == old(self).product_repo(),
            final(self).sale_repo() == old(self).sale_repo(),
    ;

    /// The sale storage inside the transaction.
    fn sales(&mut self) -> (r: &mut Self::Sales)
        ensures
            *r == old(self).sale_repo(),
            final(self).sale_repo() == *final(r),
            final(self).product_repo() == old(self).product_repo(),
            final(self).stock_repo() == old(self).stock_repo(),
    ;
}

/// What a transaction holds when it is committed: its products, stock
/// records, movements and sales.
pub struct CommittedView<A> {
    pub products: Seq<ProductView>,
    pub stocks: Seq<StockView>,
    pub movements: Seq<StockMovementView>,
    pub sales: Seq<SaleView<A>>,
}

/// The type of the prices of the sales of the transactions of `F`.
pub type WorkAmount<F> = <<<F as UnitOfWorkFactory>::Work as UnitOfWork>::Sales as SaleRepository>::Amount;

/// Opens transactions on the stored products, stock records, movements and
/// sales, and commits or rolls them back. What a commit hands over is kept as
/// `last_commit`; a factory that persists it also stores it, which is left
/// to the implementation.
pub trait UnitOfWorkFactory: Sized {
    type Work: UnitOfWork;

    /// The stored products (unspecified where the implementation does not say).
    open spec fn stored_products(&self) -> Seq<ProductView> {
        vstd::pervasive::arbitrary()
    }

    /// The stored stock records (unspecified where the implementation does not say).
    open spec fn stored_stocks(&self) -> Seq<StockView> {
        vstd::pervasive::arbitrary()
    }

    /// The stored stock movements (unspecified where the implementation does not say).
    open spec fn stored_movements(&self) -> Seq<StockMovementView> {
        vstd::pervasive::arbitrary()
    }

    /// The stored sales (unspecified where the implementation does not say).
    open spec fn stored_sales(&self) -> Seq<SaleView<WorkAmount<Self>>> {
        vstd::pervasive::arbitrary()
    }

    /// What the last successful commit handed over; `None` before any
    /// (unspecified where the implementation does not say).
    open spec fn last_commit(&self) -> Option<CommittedView<WorkAmount<Self>>> {
        vstd::pervasive::arbitrary()
    }

    /// Transactions open, commit and roll back, and their storages answer
    /// every request (not assumed of a factory that does not say so).
    open spec fn healthy(&self) -> bool {
        false
    }

    /// Opens a transaction that sees what is stored.
    fn begin(&self) -> (r: Result<Self::Work, DomainError>)
        ensures
            self.healthy() ==> r is Ok,
            r matches Ok(w) ==> {
                &&& w.product_repo().stored_products() == self.stored_products()
                &&& w.stock_repo().stored_stocks() == self.stored_stocks()
                &&& w.stock_repo().stored_movements() == self.stored_movements()
                &&& w.sale_repo().stored_sales() == self.stored_sales()
            },
            self.healthy() ==> (r matches Ok(w) ==> {
                &&& w.product_repo().healthy()
                &&& w.stock_repo().healthy()
                &&& w.sale_repo().healthy()
            }),
    ;

    /// Commits the transaction `work`: on success what it holds is handed
    /// over as `last_commit`; on failure nothing changes.
    fn commit(&mut self, work: Self::Work) -> (r: Result<(), DomainError>)
        ensures
            old(self).healthy() ==> r is Ok,
            r is Ok ==> final(self).last_commit() == Some(
                (CommittedView {
                    products: work.product_repo().stored_products(),
                    stocks: work.stock_repo().stored_stocks(),
                    movements: work.stock_repo().stored_movements(),
                    sales: work.sale_repo().stored_sales(),
                }),
            ),
            r is Err ==> {
                &&& final(self).stored_products() == old(self).stored_products()
                &&& final(self).stored_stocks() == old(self).stored_stocks()
                &&& final(self).stored_movements() == old(self).stored_movements()
                &&& final(self).stored_sales() == old(self).stored_sales()
                &&& final(self).last_commit() == old(self).last_commit()
            },
            final(self).healthy() == old(self).healthy(),
    ;

    /// Discards what the transaction `work` changed: what is stored, and the
    /// last commit, stay.
    fn rollback(&mut self, work: Self::Work) -> (r: Result<(), DomainError>)
        ensures
            old(self).healthy() ==> r is Ok,
            final(self).stored_products() == old(self).stored_products(),
            final(self).stored_stocks() == old(self).stored_stocks(),
            final(self).stored_movements() == old(self).stored_movements(),
            final(self).stored_sales() == old(self).stored_sales(),
            final(self).last_commit() == old(self).last_commit(),
            final(self).healthy() == old(self).healthy(),
    ;
}

/// `a` and `b` store the same products, stock records, movements and sales,
/// and have the same last commit.
pub open spec fn same_store<F: UnitOfWorkFactory>(a: F, b: F) -> bool {
    &&& a.stored_products() == b.stored_products()
    &&& a.stored_stocks() == b.stored_stocks()
    &&& a.stored_movements() == b.stored_movements()
    &&& a.stored_sales() == b.stored_sales()
    &&& a.last_commit() == b.last_commit()
}

} // verus!
