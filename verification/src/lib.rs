//! The logic of a small chat service: accounts, friend lists, chat rooms
//! and their messages, with every decision stated as a contract.
//!
//! `types` holds the request and response shapes, `lists` the in-memory
//! stores, and `user`, `friend`, `room` and `message` the request handlers
//! that read and change those stores. `db` holds the decisions that the
//! database-backed handlers take on the rows they fetched, and `json` the
//! encoding of id lists as stored in the database. `text` is substring
//! search, and `laws` states what holds across handlers.

pub mod types;

pub mod text;
pub mod lists;
pub mod user;
pub mod friend;
pub mod message;
pub mod room;
pub mod db;
pub mod json;
pub mod laws;
