pub mod dto;
pub mod error;
