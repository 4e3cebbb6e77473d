//! Full-window screens: the whole window is the component. The only screen
//! is the sign-in screen an app shows before its first session opens.
pub mod login;
