pub mod client;
pub mod client_subscription_info;
pub mod clients_manager;
pub mod error;
pub mod messaging;
