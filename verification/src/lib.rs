//! Cursor accounting for a single-producer, multi-consumer circular buffer
//! that lives in a doubly mapped memory region, together with the planning
//! of that region and the runtime's settings.

#![allow(deprecated)]

pub mod accounting;
pub mod circular_buffer;
pub mod config;
pub mod double_mapped_temp_file;
pub mod error;
pub mod logging;
pub mod registry;
pub mod sizing;
