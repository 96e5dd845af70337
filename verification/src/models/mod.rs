pub mod address_book;
pub mod device;
pub mod peer;
