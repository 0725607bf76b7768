//! Verified core of a terminal client for the Up banking API: the data
//! model of accounts and transactions, money formatting, request URLs,
//! the application state machine and the text shown on screen.

pub mod text;
pub mod money;
pub mod outside;
pub mod clock;
pub mod theme;
pub mod models;
pub mod client;
pub mod config;
pub mod state;
pub mod days;
pub mod handler;
pub mod detail;
pub mod listing;
pub mod laws;
