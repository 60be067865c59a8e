pub mod account;
pub mod auth;
pub mod blocklist;
pub mod config;
pub mod crypto;
pub mod devices;
pub mod email;
pub mod errors;
pub mod hexenc;
pub mod models;
pub mod numfmt;
pub mod random;
pub mod registration;
pub mod text;
pub mod time;
pub mod util;
