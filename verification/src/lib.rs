//! An agent orchestration core: registry entities for tasks, tools and agent
//! capabilities, a discovery registry with idempotent upsert-by-id semantics,
//! polymorphic invokers for the three resource kinds behind a single workflow
//! facade, and an agent factory that turns declarative configuration into
//! launch plans and lifecycle handles.
//!
//! Everything here is pure decision logic: network transports, the
//! asynchronous runtime and process plumbing live outside the library and
//! communicate with it through plain values (transport outcomes, listing
//! outcomes, start events).

pub mod config;
pub mod driver;
pub mod facade;
pub mod factory;
pub mod invoker;
pub mod json;
pub mod registry;
pub mod services;
pub mod table;
