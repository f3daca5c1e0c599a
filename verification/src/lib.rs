pub mod callbacker;
pub mod config;
pub mod replayer;
pub mod sender;
pub mod simulation;
pub mod step;
