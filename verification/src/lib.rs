//! Decision logic for a small general-purpose GPU compute library on Vulkan.
pub mod command;
pub mod context;
pub mod process_unit;
pub mod scalex;
pub mod selection;
pub mod vulkan;
