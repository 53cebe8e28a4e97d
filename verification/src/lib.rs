//! Model catalogs for providers that publish their own list of models.

pub mod headers;
pub mod listing;
pub mod model_catalog;
pub mod models;
pub mod models_client;
pub mod provider_manifest;
pub mod text;
pub mod text_laws;
pub mod transport;
