//! Building the plugin descriptor of a web service: settings and manifest
//! assembled from layered configuration sources, with URL fields derived from
//! the public base URL and the authentication section checked against its mode.

pub mod error;
pub mod layers;
pub mod manifest;
pub mod settings;
pub mod url_text;
