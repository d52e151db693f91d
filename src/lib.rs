//! A city-stewardship game: the yearly state of an ancient city and the rules
//! by which feeding, trading land, sowing, harvests, rats, plague and births
//! change it, with the verdict on a ten-year term of office.

pub mod chance;
pub mod city;
pub mod mean;
pub mod text;

pub use city::{classify, fate_message, City, Fate, Outcome, Refusal, TradeStep};
pub use mean::AccumulatingMean;
