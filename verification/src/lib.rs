//! Decision logic of a skin overlay injector: which archive serves a
//! selection, how an extracted archive becomes a mod directory, how the game
//! configuration is patched, how often the overlay tool is retried, and which
//! state the injector is in. Every function here works on plain values; the
//! caller reads the disk and starts the processes.

pub mod archive;
pub mod assemble;
pub mod champions;
pub mod config;
pub mod error;
pub mod index;
pub mod injector;
pub mod journal;
pub mod overlay;
pub mod resolve;
pub mod text;
pub mod tools;
pub mod types;
