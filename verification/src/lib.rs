//! Verified core of a small business service: products kept in a document
//! store, orders kept in a relational store, and the rules that keep an order
//! and its line items consistent.
//!
//! A call on a store is a session: it names the step to ask of the storage
//! engine, takes the engine's answer, and names the next step until the call
//! is done. The sessions decide everything and wait for nothing, so a program
//! can carry their steps to any engine. This library carries them to engines
//! that it keeps in memory, the two tables of orders and the collection of
//! products, and states over those what each call does and which laws hold of
//! the calls together.

pub mod api;
pub mod clock;
pub mod config;
pub mod errors;
pub mod ident;
pub mod models;
pub mod numbers;
pub mod repositories;
pub mod services;
