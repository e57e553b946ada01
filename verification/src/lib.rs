//! A client for the Akinator guessing game and the chat bot that plays it.

pub mod akinator;
pub mod bot;
pub mod database;
pub mod error;
pub mod game;
pub mod github;
pub mod page;
pub mod pattern;
pub mod text;
pub mod web;
pub mod webhook;
