//! Client-side logic for a route-finding HTTP service that discovers swap
//! paths between two fungible assets.
//!
//! The crate builds the outgoing request (a GET query string or a POST JSON
//! body), interprets the service's response envelope, and maps the service's
//! numeric error codes to a typed taxonomy. The HTTP exchange itself is left
//! to the embedding application.

pub mod encode;
pub mod error;
pub mod models;
pub mod request;
pub mod response;

pub use error::{AggregatorError, AggregatorServerErrorCode};
pub use response::{check_status, interpret_envelope, interpret_response};
pub use request::{
    build_find_routers_request, build_get_url, build_post_body, completion_coin, resolve_endpoint,
    RouterRequest,
};
pub use models::{
    AggregatorResponse, Amount, ExtendedDetails, FindRouterParams, FloatText, Path,
    PreSwapLpChangeParams, Router, RouterData, RouterError,
};
