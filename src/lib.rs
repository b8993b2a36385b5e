//! Firmware logic for a blinking LED driven by a periodic tick interrupt,
//! together with a display render loop that shows an incrementing counter.
//!
//! The hardware itself (pins, timers, the display bus) is driven by the
//! surrounding firmware; this library holds the decisions: the hand-off of
//! the LED handle into the tick handler, the blink divider, the counter text
//! and the sequence of display commands.
pub mod decimal;
pub mod text;
pub mod blink;
pub mod render;
