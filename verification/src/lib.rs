//! A relay between one chat on a messaging platform and a completion service.
//!
//! The crate holds the decisions of the relay and nothing else: how a text is
//! read as a command, who may talk to the relay, in which order the outside
//! services are asked, and what is done with their answers. It performs no
//! input or output. A driver hands it what arrived and carries out what it
//! asks for.
//!
//! - [`config`]: the settings of a process and their defaults.
//! - [`command`]: the commands and how a text is read as one.
//! - [`decimal`]: numbers as decimal text.
//! - [`message`]: events, requests and answers.
//! - [`turn`]: the state machine that handles one event.
//! - [`world`]: a model of the outside, and what holds of every turn.

pub mod command;
pub mod config;
pub mod decimal;
pub mod message;
pub mod turn;
pub mod world;
