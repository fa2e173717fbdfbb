//! The three operations of the marketplace, each on the records and accounts
//! that it touches.

pub mod check_subscription;
pub mod create_subscription_plan;
pub mod subscribe;
