pub mod errors;
pub mod ext;
pub mod jwt;
pub mod permission;
