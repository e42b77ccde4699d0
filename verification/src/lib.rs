//! Model of a multi-core SoC's memory-aperture subsystem: the segment-register
//! codec that ties a fixed bus address to a movable hardware start address, the
//! per-aperture and whole-board validity rules, the placement of device-tree
//! memory regions onto apertures, and the wizard's state machine.

pub mod config;
pub mod display;
pub mod dt;
pub mod hexfmt;
pub mod soc;
pub mod states;
