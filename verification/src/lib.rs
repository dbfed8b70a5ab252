//! The decision core of a small live-reload web server.
//!
//! The server renders one page from a template store, serves static files and,
//! in development mode, tells connected browsers to reload when a watched file
//! changes. Everything the server decides is here, with a contract; sockets,
//! timers, locks, the file system and the template engine's expansion of a
//! page belong to the program that drives it.

pub mod broadcaster;
pub mod page;
pub mod port;
pub mod routes;
pub mod socket;
pub mod store;
pub mod watcher;
