//! The decisions behind an in-app login: which pages count as "past login"
//! for a service, what a captured cookie string is worth, and in which order
//! the login window is polled, read, and closed.

pub mod adapter;
pub mod adapter_laws;
pub mod address_laws;
pub mod flow_laws;
pub mod login_flow;
pub mod page_url;
pub mod pixiv_login;
pub mod session;
pub mod session_laws;
pub mod step_laws;
pub mod text;
pub mod user_id;
