//! The SMTP side: authentication mechanisms, credentials, the relay's
//! configuration and the reading of its replies.

pub mod auth_mechanism;
pub mod smtp_config;
pub mod smtp_server;
pub mod tcp_com;
