//! Users and subscriptions.

pub mod dto;
pub mod use_case;
