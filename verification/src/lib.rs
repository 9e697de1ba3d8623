//! Verified core of a background e-mail job server: SMTP capability and
//! authentication handling, the task counter shared by the workers, and the
//! decisions taken by the socket listener, the client handler and the workers.

pub mod text;
pub mod smtp;
pub mod cli;
pub mod app_state;
pub mod email;
pub mod signaling;
pub mod thread_pool;
pub mod uds;
