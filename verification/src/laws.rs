//! What holds of requests as a whole.
pub mod answers;
pub mod commands;
pub mod completion;
pub mod delivery;
pub mod progress;
pub mod records;
pub mod refusal;
pub mod requests;
pub mod restraint;
pub mod selection;
pub mod settings;
pub mod sharing;
pub mod storage;
