//! The layout rendering core of a speedrun timer, with everything the
//! renderer decides stated as contracts and proved.
//!
//! Lengths are exact integers throughout: component space is counted in
//! steps of 1/120 of a component row, text in half font units. A host that
//! draws with floating point converts at its own edge.

pub mod chars;
pub mod component;
pub mod hotkey;
pub mod index;
pub mod layout;
pub mod networking;
pub mod platform;
pub mod rendering;
pub mod run;
pub mod settings;
pub mod signature;
pub mod timing;
pub mod whitespace;
