//! Session orchestration for a terminal dashboard that turns incoming
//! payments into a stack of animated bills.
pub mod bill;
pub mod clock;
pub mod config;
pub mod psp;
pub mod setup;
pub mod text;
pub mod app;
pub mod session;
pub mod money;
