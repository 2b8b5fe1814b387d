//! Decision core of a background utility that forces the operating system's
//! input source back to Latin when Escape is released, and cycles the input
//! method when the language-toggle key is released.
//!
//! The library never touches the operating system. It says, one step at a
//! time, which system call comes next, and takes the system's answer back.
//! A driver outside the library performs the calls.

pub mod key;
pub mod call;
pub mod platform;
pub mod switcher;
pub mod desktop;
pub mod laws;
