//! Values that the web API exchanges.

pub mod senum;
pub mod artist;
pub mod page;
