pub mod board;
pub mod command;
pub mod error;
pub mod fragment;
pub mod position;
pub mod reader;
pub mod report;
pub mod session;
pub mod signal;
pub mod text;
pub mod triple;
pub mod wire;
pub mod writer;
