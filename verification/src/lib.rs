pub mod book;
pub mod command;
pub mod depository;
pub mod error;
pub mod item;
pub mod magazine;
pub mod reader;
pub mod text;
