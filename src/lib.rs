pub mod matching;
pub mod search;
pub mod delete;
