//! A small todo service: wire contracts, domain model, stored entities, the
//! repository that converts between them, and the request handlers that map
//! repository outcomes to HTTP statuses.

pub mod data_source;
pub mod dto;
pub mod error;
pub mod laws;
pub mod memory;
pub mod model;
pub mod repository;
pub mod time;
pub mod uid;
pub mod web;
