//! Accounts and profiles: the account model, the rules of the account service, the
//! password rules and the QR-code login sessions.

pub mod account;
pub mod model;
pub mod password;
pub mod routes;
pub mod scan;
