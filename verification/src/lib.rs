//! Verified model of the Interlock Network token contracts.
pub mod account;
pub mod table;
pub mod psp22;
pub mod events;
pub mod ports;
pub mod text;
pub mod errors;
pub mod storage;
pub mod ilockmvp;
pub mod ilockmvp_pools;
pub mod rewards_data;
pub mod global;
