pub mod args;
pub mod cleaner;
pub mod errors;
pub mod parse;
pub mod paths;
pub mod time;
