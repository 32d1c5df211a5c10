//! Login flows of a web application, as verified decisions over plain values.

pub mod config;
pub mod error;
pub mod handlers;
pub mod interop;
pub mod session;
pub mod state;
pub mod text;
pub mod types;
