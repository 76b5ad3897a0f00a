pub mod auth;
pub mod dispatch;
pub mod registry;
pub mod session;
pub mod status;
pub mod store;
pub mod trusted_service;
