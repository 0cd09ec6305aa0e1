//! A local daemon core that mediates between a line-oriented method surface
//! and a managed-Postgres control plane: parameter validation, method
//! routing, request construction and lifecycle decisions.

pub mod api;
pub mod dispatch;
pub mod error;
pub mod laws;
pub mod lifecycle;
pub mod models;
pub mod params;
pub mod service;
pub mod text;
