//! Verified core of a wallet-account command line: the command grammar,
//! the numeric and token-identifier parsers behind the `send` and
//! `send-native` subcommands, the faucet request plan, and the exact text
//! that each command prints. Everything that talks to the wallet engine or
//! to the network lives outside this crate.

pub mod account;
pub mod command;
pub mod numeric;
pub mod token;
