pub mod field;
pub mod word;
pub mod transaction;
pub mod table;
pub mod binding;
pub mod sizing;
pub mod circuit;
