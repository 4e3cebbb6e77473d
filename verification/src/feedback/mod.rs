//! Feedback: inline banners and the toast cards.
pub mod banner;
pub mod toast;
