//! Core of a Janggi (Korean chess) automation engine: a board model with
//! snapshot diffing and move inference, a rule-based candidate-move
//! generator, and a synchronous match orchestrator that drives a device
//! controller, a board recognizer, a decision engine and an event sink
//! through a boot sequence and a fixed number of turns.

pub mod board;
pub mod board_laws;
pub mod config;
pub mod controller;
pub mod engine;
pub mod engine_laws;
pub mod errors;
pub mod events;
pub mod game;
pub mod network;
pub mod orchestrator;
pub mod ops;
pub mod stamp;
pub mod vision;
pub mod telemetry;
pub mod time_control;
pub mod ui;
