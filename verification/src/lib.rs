//! The reactive core of a terminal inspector for a game engine's remote protocol: the message
//! reducer, the stateful list and tree widgets, the keybind registry and the JSON-RPC framing.
//!
//! Everything here maps plain values to plain values: a repaint is returned as lines and the
//! places where they go. Reading keys, painting, sleeping and talking HTTP are left to the
//! program that links this library.

pub mod brp;
pub mod events;
pub mod inspector;
pub mod json;
pub mod keybinds;
pub mod keys;
pub mod layout;
pub mod model;
pub mod names;
pub mod paginated_list;
pub mod sorting;
pub mod style;
pub mod text;
pub mod view;
