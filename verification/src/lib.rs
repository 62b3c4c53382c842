//! A session-authenticated conversation relay.
//!
//! Human users post short texts; the relay records each text, picks one of
//! the registered agent users at random, asks a text-generation service for
//! the agent's answer, records that answer and hands it back. Every rule of
//! that exchange is stated as a contract and proved.
//!
//! The library does no I/O. `accounts` and `relay` hold the decisions, to be
//! driven by whatever owns the database and the network. `identity` and
//! `message_log` are the two stores, kept in memory, and `handlers` runs the
//! decisions against them. `guarantees` states what follows for every run.

pub mod accounts;
pub mod credentials;
pub mod gateway;
pub mod guarantees;
pub mod handlers;
pub mod identity;
pub mod message_log;
pub mod models;
pub mod relay;
pub mod response;
pub mod selector;
