//! Stub generation for triple services.
//!
//! A parsed service description is normalised into [`service::DubboService`],
//! its message types are resolved to references by [`resolve`], and the
//! [`client`] and [`server`] emitters turn each method into one of four
//! calling-convention shapes. [`generator::SvcGenerator`] drives the emitters
//! and collects their text until it is flushed.

pub mod attributes;
pub mod client;
pub mod emit;
pub mod error;
pub mod generator;
pub mod resolve;
pub mod server;
pub mod service;
pub mod syntax;
pub mod template;
pub mod text;
