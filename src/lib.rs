//! Validated value objects of a book catalogue: an ISBN book identifier
//! and a price restricted to one currency and a bounded amount.

pub mod book_id;
pub mod price;
