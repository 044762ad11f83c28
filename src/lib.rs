//! Configuration of a hardware debug session, and the rules that turn partial
//! user input (a working directory, file paths, a log level) into a fully
//! qualified, consistent configuration.
pub mod error;
pub mod log_level;
pub mod path;
pub mod session;
