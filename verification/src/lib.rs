//! The verified core of the Sonora desktop player's shell: how launch
//! arguments and "Open With" hand-offs are decoded and routed, how bursts of
//! hand-offs are batched, how the maximised window is fitted to a monitor, and
//! the table of key bindings.

pub mod percent;
pub mod launch;
pub mod batch;
pub mod window;
pub mod keymap;
