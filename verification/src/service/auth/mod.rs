pub mod auth;
pub mod auth_forgot;
pub mod auth_forgot_send_otp;
pub mod auth_jwt_genrator;
pub mod auth_login;
pub mod auth_logout;
pub mod auth_signup;
pub mod auth_verify_forgot_otp;
pub mod auth_verify_otp;
pub mod session;
pub mod password;
pub mod laws;
