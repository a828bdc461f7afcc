//! A typed client core for the Algolia Recommend API.
//!
//! The crate holds the part of the client that decides: which hosts a client
//! talks to, in which order one call tries them, how the answer of each
//! attempt is classified, and which request batch a call carries. Sending
//! bytes over the network is left to the caller, who feeds each answer back
//! into a [`Dispatch`].

pub mod client;
pub mod dispatch;
pub mod error;
pub mod failover;
pub mod hosts;
pub mod json;
pub mod models;

pub use client::RecommendClient;
pub use dispatch::{Dispatch, Outcome, Reply, Step};
pub use error::{DecodeFailure, Error, TransportFailure};
pub use hosts::get_default_hosts;
pub use models::{
    Model, RecommendRequest, TrendingFacetValue, TrendingFacetsRequest, TrendingFacetsResponse,
    TrendingFacetsResult,
};
