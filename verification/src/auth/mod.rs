//! Authentication: the data every login method shares, one-time verification codes,
//! and the rules of each login method.

pub mod code;
pub mod code_flow;
pub mod model;
pub mod provider;
pub mod providers;
pub mod token;
