pub mod entity;
pub mod error;
pub mod lookup;
pub mod port;
pub mod text;
pub mod usecase;
pub mod calendar;
