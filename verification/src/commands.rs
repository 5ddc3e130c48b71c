//! The command layer's verifiable part: argument types and the decisions a
//! command takes before any network work.

pub mod profiles;
