pub mod auth;
pub mod decimal;
pub mod error;
pub mod pagination;
pub mod profanity;
pub mod recovery;
pub mod types;
