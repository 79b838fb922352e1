//! An astrology reading assistant: the retry and backoff policy of its calls
//! to a language model, the parsing of the model's answers and of dates, the
//! chart data, the privacy of the prompts it sends, and the steps of a reading.

pub mod api;
pub mod dates;
pub mod geo;
pub mod math;
pub mod reading;
pub mod rules;
pub mod text;
pub mod utils;
pub mod workflow;
