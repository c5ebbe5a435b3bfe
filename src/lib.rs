//! Request authentication, authorization and response-shaping rules of the
//! creator-platform API: token claims, the access check, the ownership check,
//! pagination, campaign slugs and configuration defaults.

pub mod error;
pub mod text;
pub mod token;
pub mod access;
pub mod ownership;
pub mod pagination;
pub mod campaign;
pub mod config;
pub mod models;
pub mod queries;
pub mod podcast;
pub mod account;
