//! A small to-do list manager: the list operations, the validation of what
//! the user typed, and the menu dispatch, each with a proved contract.

pub mod action;
pub mod errors;
pub mod input;
pub mod terminal;
pub mod todo;
