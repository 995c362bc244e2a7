//! A client library for the MetaTrader 5 terminal's named-pipe protocol:
//! request and response framing, the little-endian record layouts of every
//! query, the UTF-16 string slots, pipe-name derivation and terminal
//! discovery, each with a contract proved by Verus.
//!
//! - `client`: the parameters of every command and the decoding of every
//!   response;
//! - `protocol`: frames, connection state, pipe names and discovery;
//! - `codec`: the byte reader and writer and the protocol's string forms;
//! - `layout`: the byte layout of every record;
//! - `records`: every record written field by field, and the laws that
//!   each decoding reads those bytes back to the record written;
//! - `types`: the records;
//! - `error`: the error type;
//! - `wire`, `text`, `digest`: little-endian integers, UTF-16 text, and the
//!   hashing and hexadecimal encoding a pipe name is made with.
pub mod client;
pub mod codec;
pub mod digest;
pub mod error;
pub mod layout;
pub mod protocol;
pub mod records;
pub mod text;
pub mod types;
pub mod wire;

pub use error::{IoFailure, Mt5Error, Result};
pub use protocol::{
    compute_pipe_name, discover_all_mt5_pipes, discover_all_terminals, discover_mt5_pipe,
    find_terminal64_paths, DEFAULT_TIMEOUT_MS,
};
pub use types::{
    AccountInfo, BookInfo, Rate, SymbolInfo, TerminalInfo, Tick, TradeCheckResult, TradeDeal,
    TradeOrder, TradePosition, TradeRequest, TradeResult, VersionInfo,
};

use vstd::prelude::*;

verus! {

} // verus!
