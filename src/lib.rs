//! Identity and order-lifecycle core of a commerce backend.
//!
//! The library holds the verified decisions: input validation, password
//! checking, signed-token claims, session namespaces with the authorization
//! gate, and the order state machine. Persistence, the session store and the
//! HTTP layer hand it plain values and carry out what it decides.
pub mod errors;
pub mod name_email;
pub mod customer;
pub mod decimal;
pub mod auth;
pub mod password;
pub mod session_state;
pub mod order;
pub mod login;
pub mod configuration;
