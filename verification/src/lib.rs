//! The Kora invoice-financing protocol: access control, marketplace, financing
//! pool, risk registry and treasury, as verified state machines.

pub mod access_control;
pub mod financing_pool;
pub mod marketplace;
pub mod protocol;
pub mod risk_registry;
pub mod shared;
pub mod treasury;
