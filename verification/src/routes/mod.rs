pub mod ab;
pub mod ab_books;
pub mod ab_legacy;
pub mod auth;
pub mod system;
