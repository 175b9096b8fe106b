//! A terminal weather dashboard's core: a screen state machine driven by key
//! events, a layout engine that recomputes panel geometry from the terminal
//! size, a render builder that turns a day's forecast into styled text
//! blocks, and the validated construction of a week's forecast from a
//! provider response. Everything here is pure with respect to the terminal:
//! drawing, key polling and the network fetch live outside.

pub mod frame;
pub mod layout;
pub mod render;
pub mod screen;
pub mod text;
pub mod weather;
