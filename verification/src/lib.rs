//! The core of a currency converter: the catalogue of currencies, the rule
//! for what may be typed into the amount field, the shape of the exchange
//! request and reply, and the state machine that ties them together.

pub mod amount;
pub mod currency;
pub mod decimal;
pub mod exchange;
pub mod laws;
pub mod machine;
