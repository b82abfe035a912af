//! Verified core of the portfolio tracker: the rules, classifications,
//! parsers and planners that the web server, the price feed and the
//! command-line client are built around.

pub mod cli;
pub mod dates;
pub mod decimal;
pub mod feed;
pub mod forms;
pub mod insights;
pub mod json;
pub mod market;
pub mod records;
pub mod taxonomy;
pub mod text;
pub mod views;
