pub mod records;
pub mod resolver;
pub mod service;
