//! Client kernel for a federated social-networking service that speaks
//! HTTP and JSON: app registration and token acquisition, construction
//! of authenticated requests for every endpoint, and discrimination of
//! decoded responses.
//!
//! The library computes requests and interprets decoded replies; it
//! performs no transport itself.

pub mod apps;
pub mod bundle;
pub mod client;
pub mod entities;
pub mod error;
pub mod json;
pub mod outside;
pub mod registration;
pub mod request;
pub mod status_builder;
pub mod text;

pub use client::{Data, Mastodon};
pub use error::{decode, ApiError, Error};
pub use registration::Registration;
pub use request::{Body, Method, Request};
pub use status_builder::StatusBuilder;
pub use text::{render_i64, render_u64};
