pub mod config;
pub mod duration;
pub mod errors;
pub mod http;
pub mod login;
pub mod logout;
pub mod session;
pub mod token;
pub mod upload;
