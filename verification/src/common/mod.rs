//! Building blocks shared by the modules of the crate.
pub mod clock;
pub mod duration;
pub mod ids;
pub mod outside;
pub mod str_map;
pub mod text;
