//! The core of a desktop control plane around one long-running server
//! process.
//!
//! - `supervisor`, `startup`: what is known of the process, how its output
//!   is read for the port, and every decision of start, restart and stop.
//! - `gateway`, `config_routes`: the routes of the local HTTP gateway, the
//!   metadata cache, the change of directory, and how requests are forwarded.
//! - `stream`, `events`: how the lines of the event stream become frames
//!   and envelopes, and when a consumer of the stream retries or stops.
//! - `notifications`: one notification per finished assistant turn.
//! - `activity`: the phase of every session, with its cooldown timers.
//! - `config`, `config_update`: the two stores of agents and commands and
//!   the routing of field updates between them.
//! - `files`, `terminal`, `commands`: rules of the file, terminal and
//!   permission commands.
//! - `text`, `patterns`: texts as sequences of characters, and regular
//!   expressions.
//! - `activity_laws`, `supervisor_laws`: what holds over whole runs.
//!
//! The library decides and never waits, spawns or connects: a driver
//! carries out what it asks for and reports back what happened.
pub mod activity;
pub mod activity_laws;
pub mod commands;
pub mod config;
pub mod config_routes;
pub mod config_update;
pub mod events;
pub mod files;
pub mod gateway;
pub mod notifications;
pub mod patterns;
pub mod startup;
pub mod stream;
pub mod supervisor;
pub mod supervisor_laws;
pub mod terminal;
pub mod text;
