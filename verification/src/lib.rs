//! Pointer-event decisions for a browser canvas: which pointer, button and
//! button state a DOM pointer event stands for, what the canvas must do with
//! it (prevent the default action, capture the pointer), and which listeners
//! a pointer handler holds.
//!
//! The event values come in as plain data read from the DOM event; the
//! floating-point parts of a report (position, pressure, tilt) are attached
//! by the caller.

pub mod types;
pub mod buttons;
pub mod events;
pub mod handler;
pub mod laws;
