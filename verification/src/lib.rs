//! The authentication core of a contact-form service and its admin
//! dashboard: login with a limit on failed attempts, signed tokens, sessions
//! kept in a key-value store, and anti-CSRF tokens bound to a session.
//!
//! The crate decides and performs no I/O. What a request needs from the
//! store is an [`exchange::Exchange`]: it names the
//! [`store::StoreCommand`] to send, takes the [`store::StoreReply`] and goes
//! on until it ends. The caller carries the commands to the store;
//! [`store::MemoryStore`] carries them out in memory. What holds of every
//! exchange is proved in [`laws`].

pub mod error;
pub mod text;
pub mod fresh;
pub mod keys;
pub mod store;
pub mod json;
pub mod token;
pub mod password;
pub mod state;
pub mod session;
pub mod csrf;
pub mod auth;
pub mod exchange;
pub mod laws;
pub mod comments;
pub mod submission;
pub mod models;
pub mod middleware;
pub mod logging;
