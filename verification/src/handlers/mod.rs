//! The login endpoints. Each endpoint is a chain of steps: a step names one piece of outside
//! work with all that it takes, and is resumed with how that work ended.

pub mod laws;
pub mod local_login;
pub mod local_login_laws;
pub mod opening;
pub mod otp;
pub mod otp_laws;
pub mod registration;
pub mod session_auth;
pub mod session_auth_laws;
