//! What a command line hands to a session.

pub mod argument_parser;
