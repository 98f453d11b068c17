//! The decisions of a TON wallet service's core.

pub mod controllers;
pub mod engine;
pub mod error;
pub mod laws;
pub mod listener;
pub mod message;
pub mod models;
pub mod observer;
pub mod pending;
pub mod start;
pub mod uint256;
