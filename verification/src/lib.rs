pub mod cli;
pub mod controller;
pub mod decoder;
pub mod loader;
pub mod processor;
pub mod radio;
pub mod signal;
