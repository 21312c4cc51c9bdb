pub mod context;
pub mod main_menu;
pub mod menu_item;
