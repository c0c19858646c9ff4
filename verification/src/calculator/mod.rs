//! An interactive four-function calculator, without its console and without
//! its arithmetic: which operation a round comes to, what each typed line
//! means, and how the dialogue moves from prompt to prompt.

pub mod line;
pub mod operator;
pub mod session;
