//! A small directory of users: the record store's statement protocol, its
//! volatile storage engine, and the mapping from store outcomes to responses.
//!
//! Nothing in this crate performs I/O. A durable deployment sends each
//! [`statement::Statement`] to its own storage engine and feeds the
//! [`statement::Reply`] back; the decisions are taken here.

pub mod consistency;
pub mod controllers;
pub mod database;
pub mod engine;
pub mod error;
pub mod identifier;
pub mod models;
pub mod protocol;
pub mod response;
pub mod statement;
pub mod table;
