//! The decisions of a launcher for the server of a local test network.
//!
//! The launcher starts the server as a process of its own, learns the port that
//! the server chose from a file that the server writes, configures a network
//! instance on the server, tells the automation around it where the network
//! is, and supervises the server until it is asked to stop. This library holds
//! what is decided on the way, with proofs; the program around it starts
//! processes, watches directories and waits for signals.
//!
//! - [`version`] and [`arguments`]: how a declared interface version stands
//!   to the launcher's own, and what becomes of arguments that the launcher
//!   does not recognise.
//! - [`port_file`] and [`discovery`]: reading the port file, and delivering one
//!   outcome for however many notifications of the file watcher.
//! - [`child`]: the command line of the server.
//! - [`instance`] and [`status`]: what the network instance is made of, and the
//!   record that is published of it.
//! - [`startup`] and [`shutdown`]: the order of the steps when the launcher
//!   starts and when it stops.
//! - [`config`] and [`text`]: the resolved options, and decimal numerals.

pub mod arguments;
pub mod child;
pub mod config;
pub mod discovery;
pub mod instance;
pub mod port_file;
pub mod shutdown;
pub mod startup;
pub mod status;
pub mod text;
pub mod version;
