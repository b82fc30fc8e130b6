pub mod naming;
pub mod resource_name;
pub mod terraform;
pub mod templates;
