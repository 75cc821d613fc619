//! Verified core of `wxdotgov`, a command-line weather reporter.
//!
//! The library holds the logic of the tool: classifying the user's
//! location text into a postal code, postal code with extension, city,
//! or city with state; building the geocoder query and the points URL;
//! deciding the outcome of each provider response; rendering the final
//! report lines; and the pipeline state machine that strings the stages
//! together. All network traffic, argument parsing and terminal output
//! live outside the library and hand it plain values.

pub mod fetch;
pub mod location;
pub mod nomatim;
pub mod numfmt;
pub mod pipeline;
pub mod render;
pub mod text;
pub mod weatherdotgov;
