//! Verified core of `mon`, a command line client for Monarch Money that works
//! through a logged-in browser tab.

pub mod text;
pub mod timestamp;
pub mod json;
pub mod json_text;
pub mod read_problem;
pub mod graphql;
pub mod update_error;
pub mod category;
pub mod cli;
pub mod paths;
pub mod queries;
pub mod transaction_update;
pub mod browser;
pub mod output;
pub mod session;
pub mod client;
pub mod rent;
