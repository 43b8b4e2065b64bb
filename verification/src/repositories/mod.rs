//! The stores: what each asks of its storage engine, and what it makes of
//! the answers.

pub mod document;
pub mod order_engine;
pub mod order_laws;
pub mod order_repository;
pub mod order_session;
pub mod order_tables;
pub mod product_engine;
pub mod product_repository;
pub mod product_session;
pub mod relational;
pub mod repository;
