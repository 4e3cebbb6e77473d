//! The Agentic UI library's view models and the decisions its components
//! make: which rows a sidebar grouping shows, which line a session row draws,
//! what a hover card says, how menus move their highlight. Every component
//! takes data in and hands intents out; drawing is the renderer's business.
pub mod assets;
pub mod composer;
pub mod data;
pub mod feedback;
pub mod ink;
pub mod keys;
pub mod nav;
pub mod overlay;
pub mod screens;
pub mod text;
