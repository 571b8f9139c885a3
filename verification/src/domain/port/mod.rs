pub mod category_repository;
pub mod mocks;
pub mod price_repository;
pub mod product_repository;
pub mod report_repository;
pub mod return_repository;
pub mod sale_repository;
pub mod stock_repository;
pub mod unit_of_work;
pub mod warranty_repository;

pub use unit_of_work::{UnitOfWork, UnitOfWorkFactory};
