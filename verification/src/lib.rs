//! A greeting formatter and the small table of commands that a desktop
//! shell offers to its front end.

pub mod command;
pub mod greeting;
pub mod text;
