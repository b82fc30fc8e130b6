pub mod request;
pub mod drift;
