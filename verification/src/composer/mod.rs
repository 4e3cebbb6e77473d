//! The composer's data and decisions: the attachment rows, the card with its send control and
//! context chips, the `+` menu, the `/` and `@` menus with their
//! row/highlight arithmetic, the chip pickers and the queued messages.
pub mod attachments;
pub mod composer;
pub mod menu;
pub mod menus;
pub mod pickers;
pub mod queue;
