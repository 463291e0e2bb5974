//! Quick-add journaling: resolve today's daily file from configuration and
//! compute exactly what an entry appends to it.

pub mod entry;
pub mod config;
pub mod daily;
pub mod cli;
