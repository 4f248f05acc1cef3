//! A persisted wheel of named entries, and random picks from it.
//!
//! The library holds the logic: the pool and its edits, the answer that
//! confirms a clear, the draws of a pick, the reading of the command line
//! tokens and the place of the configuration file. Reading and writing the
//! file, the terminal and the clock are left to the program around it.
pub mod answer;
pub mod command;
pub mod paths;
pub mod pick;
pub mod pool;
