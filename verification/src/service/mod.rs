pub mod auth;
pub mod mail;
pub mod otp;
pub mod token;
pub mod user;
