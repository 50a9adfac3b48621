//! Core logic of a JSON load-generation tool: a schema-driven random payload
//! synthesizer, run statistics with exact summary arithmetic, a deadline-bound
//! send-loop state machine, and a progress spinner, all with verified contracts.

pub mod decimal;
pub mod driver;
pub mod floatbits;
pub mod json;
pub mod progress;
pub mod stats;
pub mod synth;
