//! Small worked programs with verified contracts: an interactive
//! four-function calculator, strings handed between functions, rectangles,
//! messages and a search.

pub mod calculator;
pub mod decimal;
pub mod message;
pub mod ownership;
pub mod rectangle;
pub mod search;
