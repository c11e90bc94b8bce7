//! A minimal second-stage loader for a family of microcontrollers: decoding of
//! the on-flash image format, per-chip address windows, segment placement and
//! the boot sequence as a verified state machine.

pub mod image;

pub mod chip;
pub mod placement;
pub mod boot;
