//! What the library promises as a whole. Each law speaks of what goes in and what comes out.
pub mod calls;
pub mod control;
pub mod form;
pub mod form_screen;
pub mod places;
pub mod screen;
pub mod servers;
pub mod state;
pub mod values;
