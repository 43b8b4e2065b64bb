//! The domain services: thin orchestration over the stores.

pub mod order_service;
pub mod product_service;
