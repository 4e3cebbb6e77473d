//! Navigation: the session view model, the row decisions, the sidebar and
//! its three groupings flattened into rows, the collapsed rail, the hover
//! detail, the assistant's role sections, the view-options menu and the
//! folder drop card.
pub mod date_layout;
pub mod detail;
pub mod folder_drop;
pub mod rail;
pub mod roles;
pub mod rows;
pub mod sidebar;
pub mod types;
pub mod view_menu;
pub mod views;
