//! Decides whether today or tomorrow is a Buddhist observance day, from a
//! yearly CSV calendar, and prepares the chat notification that announces it.

pub mod text;
pub mod models;
pub mod error;
pub mod calendar;
pub mod config;
pub mod services;
pub mod handlers;
