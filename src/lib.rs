//! Country economic data: reconciliation of a country directory with an
//! exchange-rate feed, the refresh session that persists the result, and the
//! summary chart of the largest economies.

pub mod config;
pub mod error;
pub mod handlers;
pub mod image_generator;
pub mod models;
pub mod rates;
pub mod reconcile;
pub mod refresh;
pub mod repository;
