//! Decoding and encoding of the two ASN.1 time types used in certificates,
//! UTCTime and GeneralizedTime, with their content grammars and calendar
//! rules verified.

pub mod civil;
pub mod digits;
pub mod error;
pub mod generalized_time;
pub mod time;
pub mod utc_time;
