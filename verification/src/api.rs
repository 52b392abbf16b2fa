//! The operations that the transport layer calls.

pub mod user_account_control;
