pub mod boundary;
pub mod errors;
pub mod loader;
pub mod locator;
pub mod query;
pub mod store;
pub mod trusted;
