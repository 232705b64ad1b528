//! A verified client core for an ordered key-value storage engine and for a
//! shell that inspects its databases.
//!
//! The engine itself is reached through a C interface, by the program that
//! uses this library. The library holds what can be said about that program
//! without running the engine: how a path is prepared and an answer of the
//! engine is read ([`db`], [`string`], [`options`]), in which order a cursor
//! is questioned and its entries copied ([`iter`]), how stored bytes become
//! text ([`decode`], [`utf8`], [`utf16`], [`render`]), what a line of input
//! means ([`command`], [`text`]) and what it does to a session ([`session`]).

pub mod command;
pub mod db;
pub mod decode;
pub mod format;
pub mod iter;
pub mod options;
pub mod render;
pub mod session;
pub mod slice;
pub mod string;
pub mod text;
pub mod utf16;
pub mod utf8;

pub use crate::db::Db;
pub use crate::options::Options;
pub use crate::options::ReadOptions;
pub use crate::slice::OwnedSlice;
pub use crate::string::String;
