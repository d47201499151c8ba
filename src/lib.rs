//! A small client for a news aggregation API: request configuration, the
//! request address, and the rules that turn a decoded reply into articles or
//! a typed error.
pub mod address;
pub mod article;
pub mod config;
pub mod error;
pub mod reply;
pub mod render;

pub use article::{Article, NewsApiResponse};
pub use config::{Country, Endpoint, NewsApi};
pub use error::NewsApiError;
