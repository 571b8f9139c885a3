pub mod category_usecase;
pub mod price_usecase;
pub mod product_usecase;
pub mod report_usecase;
pub mod return_usecase;
pub mod sale_usecase;
pub mod stock_usecase;
pub mod warranty_usecase;
