//! Verified core of the musicland tools: the remote commands that the tools run,
//! the paths they rewrite, and the decisions they take between remote calls.

pub mod commands;
pub mod links;
pub mod listing;
pub mod paths;
pub mod playlist;
mod text;
