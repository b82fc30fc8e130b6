pub mod aws;
pub mod azure;
pub mod generators;
pub mod json;
pub mod models;
pub mod providers;
pub mod query;
pub mod terraform;
pub mod text;
