pub mod category;
pub mod price;
pub mod product;
pub mod report;
pub mod sale;
pub mod return_model;
pub mod stock;
pub mod warranty;
