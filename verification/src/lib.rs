//! A small contact-book library: an id-ordered record store over contact
//! records, uniqueness validation for email and phone, and case-insensitive
//! substring search, all with verified contracts.

pub mod contacts;
pub mod laws;
pub mod search;
pub mod store;
pub mod templates;
pub mod utils;
pub mod validation;
