pub mod configuration;
pub mod domain;
pub mod email_client;
pub mod subscriptions;
pub mod text;
