//! Verified core of the Sparagne terminal client: input validation, amount
//! parsing, localized messages and the display helpers of its screens.

pub mod strings;
pub mod text;
pub mod validation;
pub mod ui;
