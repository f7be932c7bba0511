//! Verified core of `midna`, an AUR package helper.
//!
//! The library holds the decision logic of the tool: path layout of the
//! local store, judgement of HTTP statuses and process exit codes, parsing
//! of search responses, and the install pipeline's state machine.  All
//! filesystem, network and subprocess work is performed by the surrounding
//! binary, which asks the library what to do and reports back what happened.

pub mod aur;
pub mod errors;
pub mod local_index;
pub mod pipeline;
pub mod search;
pub mod text;
