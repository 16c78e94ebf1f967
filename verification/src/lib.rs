//! Access-control gate and tenant-scoped paginated query gateway.
//!
//! The library verifies the security-critical core of a small authenticated
//! HTTP service: the token codec that signs and checks session claims, the
//! credential and role gates that guard protected routes, and the query
//! gateway that turns client-supplied paging and sorting parameters into a
//! bounded, injection-safe, tenant-filtered query plan. All I/O (HTTP, the
//! user store, the secondary inventory session) lives outside the library
//! and hands plain values in and out.

pub mod account;
pub mod gate;
pub mod listing;
pub mod model;
pub mod pagination;
pub mod password;
pub mod query;
pub mod text;
pub mod token;
