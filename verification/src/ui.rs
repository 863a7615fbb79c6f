//! What the menus and the score board decide. Drawing them is not done here:
//! each function takes what was pressed and says what follows from it.

pub mod in_game;
pub mod main_menu;
pub mod pause_menu;
