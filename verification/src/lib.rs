//! Management core of a small shop: products, categories, stock, warranties,
//! returns, sales and reports. The entities, the ports through which storage
//! is reached, in-memory adapters of those ports, and the use cases, each
//! with the rules it follows stated as its contract.

pub mod adapter;
pub mod config;
pub mod domain;
