pub mod users;
pub mod claims;
