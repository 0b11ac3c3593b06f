//! A terminal todo-list manager: the records it keeps, the menus it offers and
//! the session that turns the user's choices into store operations.

pub mod input;
pub mod laws;
pub mod session;
pub mod store;
pub mod todo;
