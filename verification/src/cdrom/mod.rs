//! The CD-ROM controller, its disc time arithmetic and the CUE sheet model.

pub mod time;
pub mod cuebin;
pub mod state;
pub mod fifo;
pub mod controller;
pub mod text;
pub mod parser;
pub mod reader;
