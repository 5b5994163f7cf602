//! Core of a small interactive shell.
//!
//! A command line, already split into words, is parsed for redirection
//! directives, the command word is resolved against a fixed set of builtins
//! and then against the directories on PATH, and builtins run in-process,
//! producing a buffer of output lines each tagged as ordinary or error
//! output. Reading input, spawning external commands and touching the
//! filesystem are left to the surrounding program; everything here is a
//! function from plain values to plain values, with its behaviour stated in
//! contracts.

pub mod output;
pub mod strutil;
pub mod tokens;
pub mod resolve;
pub mod builtins;
pub mod router;
