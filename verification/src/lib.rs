//! Route descriptors for a framed, connection-oriented request server: a
//! builder pairs a path pattern and a set of accepted verbs with a handler,
//! a factory turns the finished route into one dispatcher per connection, and
//! the dispatcher runs the handler and settles whatever it reports.

pub mod method;
pub mod descriptor;
pub mod service;
