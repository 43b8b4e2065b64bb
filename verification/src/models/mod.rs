//! The entities of the service and the values that requests carry.

pub mod order;
pub mod product;
