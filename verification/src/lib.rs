//! Locale validation and country resolution for an Android locale, carrier
//! and GPS spoofer.
//!
//! The crate holds the decisions of one run: whether a locale code is one of
//! the known `language-REGION` codes, how it splits into language and region,
//! which country a locale directory names for it, and which device commands
//! follow. Network and process I/O stay with the caller, who hands the
//! library plain values and carries out the actions it returns.
//!
//! - [`codes`]: the reference table of locale codes, and what holds of it.
//! - [`locale`]: validation of a locale code and its split.
//! - [`json`]: JSON documents, read by `serde_json`.
//! - [`directory`]: the lookup of a locale in the directory's answer.
//! - [`country`]: the country of a run, before and after the lookup.
//! - [`device`]: the device commands, their arguments and their reports.
//! - [`pipeline`]: the run as a state machine.
//! - [`search`], [`text`]: helpers on sequences and string slices.

pub mod codes;
pub mod country;
pub mod device;
pub mod directory;
pub mod json;
pub mod locale;
pub mod pipeline;
pub mod search;
pub mod text;
